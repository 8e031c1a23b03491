//! The deposit, withdrawal, balance-refresh and reward operations as state
//! machines. Each step takes the replies of the calls that the last step asked
//! for and says which calls to make next (made in order, each whatever came of
//! the one before), or how the operation ends. The calls are made outside.
use crate::audit::{advanced_index, next_index, OperationContext};
use crate::dex::{
    add_liquidity_amounts_request, add_liquidity_request, add_pool_request, add_token_outcome,
    add_token_request, apply_ledger_metadata, approve_request, claim_accepted, claim_error,
    claim_ids_text, removal_overflow, removal_overflows, withdrawal_from_reply,
    combine_balance_results,
    combine_step_results, is_add_pool_of, is_amounts_query_of, is_approval_of, is_top_up_of,
    is_transfer_of, kong_token_text, ledger_balance_from_reply, lp_balance_error, lp_balance_found,
    lp_balance_value, lp_token_text, metadata_outcome, pool_exists_error,
    remove_liquidity_amounts_balances, select_lp_balance, deposit_amount_of, metadata_value, token_exists_message, transfer_request,
    update_token_request, user_balances_request,
};
use crate::balances::{refreshed, ValidatedBalances};
use crate::natural::{decode_error_message, decode_nat_to_u64, significant_len};
use crate::principal::kong_backend_bytes;
use crate::state::{finalize_trail, AdaptorView};
use crate::types::{ErrorKind, ERROR_CODE_BACKEND, ERROR_CODE_POSTCONDITION};
use crate::natural::digit_base;
use crate::principal::kong_backend_canister_id;
use crate::state::KongSwapAdaptor;
use crate::types::{DepositRequest, WithdrawRequest};
use crate::validation::ValidatedAllowance;
use crate::kong_types::{
    AddLiquidityAmountsArgs, AddLiquidityAmountsReply, AddLiquidityArgs, AddPoolArgs,
    AddTokenArgs, ApproveArgs, MetadataValue, RemoveLiquidityAmountsArgs,
    RemoveLiquidityAmountsReply, RemoveLiquidityArgs, RemoveLiquidityReply, TransferArg,
    UpdateTokenArgs, UserBalancesArgs,
};
use crate::natural::{nat_display, NatValue};
use crate::principal::{principal_text, PrincipalId, MAX_PRINCIPAL_BYTES};
use crate::symbol::symbol_text;
use crate::text::{decimal, push_all, push_str, str_chars, string_chars, string_from_chars, u64_decimal};
use crate::types::{Account, Error, Operation, Step, TreasuryManagerOperation};
use crate::validation::ValidatedAsset;
use vstd::prelude::*;

verus! {

/// A call that an operation asks to be made.
pub enum Call {
    /// ICRC-2 `icrc2_approve` on a ledger.
    Approve(ApproveArgs),
    /// ICRC-1 `icrc1_balance_of` on a ledger.
    BalanceOf(Account),
    AddToken(AddTokenArgs),
    UpdateToken(UpdateTokenArgs),
    /// ICRC-1 `icrc1_metadata` on a ledger.
    Metadata,
    AddPool(AddPoolArgs),
    AddLiquidityAmounts(AddLiquidityAmountsArgs),
    AddLiquidity(AddLiquidityArgs),
    UserBalances(UserBalancesArgs),
    RemoveLiquidityAmounts(RemoveLiquidityAmountsArgs),
    RemoveLiquidity(RemoveLiquidityArgs),
    /// KongSwap's claims of the principal with the given textual form.
    Claims(String),
    /// Claiming what KongSwap holds for the claim with the given id.
    Claim(u64),
    /// ICRC-1 `icrc1_transfer` on a ledger.
    Transfer(TransferArg),
}

/// A call with the step of the operation that it is recorded under, the
/// canister it goes to, and the description kept in the audit trail.
pub struct CallRequest {
    pub operation: TreasuryManagerOperation,
    pub canister_id: PrincipalId,
    pub call: Call,
    pub human_readable: String,
}

/// What came of a call, as the operation goes on with it: the call's result
/// as recorded in the audit trail.
pub enum Reply {
    Approve(Result<NatValue, Error>),
    BalanceOf(Result<NatValue, Error>),
    AddToken(Result<(), Error>),
    UpdateToken(Result<(), Error>),
    Metadata(Result<Vec<(String, MetadataValue)>, Error>),
    AddPool(Result<(), Error>),
    AddLiquidityAmounts(Result<AddLiquidityAmountsReply, Error>),
    AddLiquidity(Result<(), Error>),
    /// Each LP balance's symbol, with the balance in e8 decimals or why it
    /// could not be converted.
    UserBalances(Result<Vec<(String, Result<NatValue, String>)>, Error>),
    RemoveLiquidityAmounts(Result<RemoveLiquidityAmountsReply, Error>),
    RemoveLiquidity(Result<RemoveLiquidityReply, Error>),
    /// Each claim's id and symbol.
    Claims(Result<Vec<(u64, String)>, Error>),
    /// The claimed ledger's textual form, if any, and the amount.
    Claim(Result<(Option<String>, NatValue), Error>),
    Transfer(Result<NatValue, Error>),
}

/// Whether `reply` is of the kind that answers `call`.
pub open spec fn answers(call: Call, reply: Reply) -> bool {
    match (call, reply) {
        (Call::Approve(_), Reply::Approve(_)) => true,
        (Call::BalanceOf(_), Reply::BalanceOf(_)) => true,
        (Call::AddToken(_), Reply::AddToken(_)) => true,
        (Call::UpdateToken(_), Reply::UpdateToken(_)) => true,
        (Call::Metadata, Reply::Metadata(_)) => true,
        (Call::AddPool(_), Reply::AddPool(_)) => true,
        (Call::AddLiquidityAmounts(_), Reply::AddLiquidityAmounts(_)) => true,
        (Call::AddLiquidity(_), Reply::AddLiquidity(_)) => true,
        (Call::UserBalances(_), Reply::UserBalances(_)) => true,
        (Call::RemoveLiquidityAmounts(_), Reply::RemoveLiquidityAmounts(_)) => true,
        (Call::RemoveLiquidity(_), Reply::RemoveLiquidity(_)) => true,
        (Call::Claims(_), Reply::Claims(_)) => true,
        (Call::Claim(_), Reply::Claim(_)) => true,
        (Call::Transfer(_), Reply::Transfer(_)) => true,
        _ => false,
    }
}

/// Whether `replies` answer `requests`, one for one, in order.
pub open spec fn answer_all(requests: Seq<CallRequest>, replies: Seq<Reply>) -> bool {
    &&& replies.len() == requests.len()
    &&& forall|i: int| 0 <= i < requests.len() ==> answers(#[trigger] requests[i].call, replies[i])
}

/// The step that the next call of an operation is recorded under, given the
/// operation's counter.
pub open spec fn step_of(ctx: (Operation, Option<usize>)) -> TreasuryManagerOperation {
    TreasuryManagerOperation {
        operation: ctx.0,
        step: Step { index: next_index(ctx.1), is_final: false },
    }
}

/// The counter after `n` more calls.
pub open spec fn ctx_after(ctx: (Operation, Option<usize>), n: nat) -> (Operation, Option<usize>)
    decreases n,
{
    if n == 0 {
        ctx
    } else {
        let c = ctx_after(ctx, (n - 1) as nat);
        (c.0, advanced_index(c.1))
    }
}

/// Whether `r` is a call recorded under step `op`, to canister `canister`,
/// described by `text`.
pub open spec fn addressed(r: CallRequest, op: TreasuryManagerOperation, canister: Seq<u8>, text: Seq<char>) -> bool {
    r.operation == op && r.canister_id@ == canister && r.human_readable@ == text
}

/// The textual form of an ICRC-1 account, as `icrc_ledger_types` displays it:
/// the owner, with the subaccount when there is one other than the default.
pub uninterp spec fn icrc_account_text(owner: Seq<u8>, subaccount: Option<Seq<u8>>) -> Seq<char>;

/// Renders an account with `Display` of `icrc_ledger_types::icrc1::account::Account`.
/// Claimed: the result is the named rendering of the owner's bytes and the
/// subaccount; without a subaccount, or with the all-zero one, it is the
/// owner's textual form (that `Display` writes the owner alone then).
#[verifier::external_body]
fn icrc_account_to_text(owner: &[u8], subaccount: Option<[u8; 32]>) -> (text: String)
    requires
        owner@.len() <= MAX_PRINCIPAL_BYTES,
    ensures
        subaccount is None ==> text@ == crate::principal::principal_text(owner@),
        (subaccount matches Some(s) && s@ == Seq::new(32, |i: int| 0u8)) ==> text@
            == crate::principal::principal_text(owner@),
        text@ == icrc_account_text(
            owner@,
            match subaccount {
                Some(s) => Some(s@),
                None => None,
            },
        ),
{
    icrc_ledger_types::icrc1::account::Account {
        owner: candid::Principal::from_slice(owner),
        subaccount,
    }.to_string()
}

/// The textual form of an account.
pub open spec fn account_text(a: Account) -> Seq<char> {
    icrc_account_text(
        a.owner@,
        match a.subaccount {
            Some(s) => Some(s@),
            None => None,
        },
    )
}

fn account_to_text(a: &Account) -> (text: String)
    ensures
        text@ == account_text(*a),
{
    let owner = a.owner.as_bytes();
    icrc_account_to_text(owner.as_slice(), a.subaccount)
}

pub open spec fn balance_message(ledger: Seq<u8>, symbol: Seq<u8>) -> Seq<char> {
    "Calling "@ + principal_text(ledger) + ".icrc1_balance_of to get the remaining balance of "@
        + symbol_text(symbol) + "."@
}

pub open spec fn transfer_message(ledger: Seq<u8>, amount: u64, symbol: Seq<u8>, to: Account) -> Seq<char> {
    "Calling "@ + principal_text(ledger) + ".icrc1_transfer to withdraw "@ + decimal(amount as nat)
        + " "@ + symbol_text(symbol) + " from KongSwapAdaptor to "@ + account_text(to) + "."@
}

pub open spec fn approve_message(symbol: Seq<u8>) -> Seq<char> {
    "Calling ICRC2 approve to set KongSwapBackend as spender for "@ + symbol_text(symbol) + "."@
}

pub open spec fn add_token_message(token: Seq<char>) -> Seq<char> {
    "Calling KongSwapBackend.add_token to attempt to add "@ + token + "."@
}

pub open spec fn update_token_message(asset_id: nat, ledger: Seq<u8>) -> Seq<char> {
    "Calling KongSwapBackend.update_token for ledger #"@ + decimal(asset_id) + " ("@
        + principal_text(ledger) + ")."@
}

pub open spec fn metadata_message(asset_id: nat, ledger: Seq<u8>) -> Seq<char> {
    "Refreshing metadata for ledger #"@ + decimal(asset_id) + " ("@ + principal_text(ledger)
        + ")."@
}

pub open spec fn amounts_message(token_0: Seq<char>, amount_0: nat, token_1: Seq<char>) -> Seq<char> {
    "Calling KongSwapBackend.add_liquidity_amounts to estimate how much liquidity can be added for token_1 ="@
        + token_1 + " when adding token_0 = "@ + token_0 + ", amount_0 = "@ + nat_display(amount_0)
        + "."@
}

pub open spec fn add_liquidity_message(
    token_0: Seq<char>,
    amount_0: nat,
    token_1: Seq<char>,
    amount_1: nat,
) -> Seq<char> {
    "Calling KongSwapBackend.add_liquidity to top up liquidity for token_0 = "@ + token_0
        + ", amount_0 = "@ + nat_display(amount_0) + ", token_1 = "@ + token_1 + ", amount_1 = "@
        + nat_display(amount_1) + "."@
}

pub open spec fn claim_message(symbol: Seq<char>, claim_id: u64) -> Seq<char> {
    "Calling KongSwapBackend.claim to claim the liquidity for "@ + symbol + ", claim ID "@
        + decimal(claim_id as nat) + "."@
}

pub open spec fn remove_amounts_message(amount: nat) -> Seq<char> {
    "Calling KongSwapBackend.remove_liquidity_amounts to estimate how much liquidity can be removed for LP token amount "@
        + nat_display(amount) + "."@
}

fn balance_text(asset: &ValidatedAsset) -> (s: String)
    ensures
        s@ == balance_message(asset@.ledger, asset@.symbol),
{
    let mut m = str_chars("Calling ");
    push_all(&mut m, &string_chars(&asset.ledger_canister_id().to_text()));
    push_str(&mut m, ".icrc1_balance_of to get the remaining balance of ");
    push_all(&mut m, &string_chars(&asset.symbol()));
    push_str(&mut m, ".");
    string_from_chars(&m)
}

fn transfer_text(asset: &ValidatedAsset, amount: u64, to: &Account) -> (s: String)
    ensures
        s@ == transfer_message(asset@.ledger, amount, asset@.symbol, *to),
{
    let mut m = str_chars("Calling ");
    push_all(&mut m, &string_chars(&asset.ledger_canister_id().to_text()));
    push_str(&mut m, ".icrc1_transfer to withdraw ");
    push_all(&mut m, &u64_decimal(amount));
    push_str(&mut m, " ");
    push_all(&mut m, &string_chars(&asset.symbol()));
    push_str(&mut m, " from KongSwapAdaptor to ");
    push_all(&mut m, &string_chars(&account_to_text(to)));
    push_str(&mut m, ".");
    string_from_chars(&m)
}

fn approve_text(asset: &ValidatedAsset) -> (s: String)
    ensures
        s@ == approve_message(asset@.symbol),
{
    let mut m = str_chars("Calling ICRC2 approve to set KongSwapBackend as spender for ");
    push_all(&mut m, &string_chars(&asset.symbol()));
    push_str(&mut m, ".");
    string_from_chars(&m)
}

fn add_token_text(token: &String) -> (s: String)
    ensures
        s@ == add_token_message(token@),
{
    let mut m = str_chars("Calling KongSwapBackend.add_token to attempt to add ");
    push_all(&mut m, &string_chars(token));
    push_str(&mut m, ".");
    string_from_chars(&m)
}

fn update_token_text(asset_id: u64, ledger: &PrincipalId) -> (s: String)
    ensures
        s@ == update_token_message(asset_id as nat, ledger@),
{
    let mut m = str_chars("Calling KongSwapBackend.update_token for ledger #");
    push_all(&mut m, &u64_decimal(asset_id));
    push_str(&mut m, " (");
    push_all(&mut m, &string_chars(&ledger.to_text()));
    push_str(&mut m, ").");
    string_from_chars(&m)
}

fn metadata_text(asset_id: u64, ledger: &PrincipalId) -> (s: String)
    ensures
        s@ == metadata_message(asset_id as nat, ledger@),
{
    let mut m = str_chars("Refreshing metadata for ledger #");
    push_all(&mut m, &u64_decimal(asset_id));
    push_str(&mut m, " (");
    push_all(&mut m, &string_chars(&ledger.to_text()));
    push_str(&mut m, ").");
    string_from_chars(&m)
}

fn amounts_text(token_0: &String, amount_0: &NatValue, token_1: &String) -> (s: String)
    ensures
        s@ == amounts_message(token_0@, amount_0.value(), token_1@),
{
    let mut m = str_chars(
        "Calling KongSwapBackend.add_liquidity_amounts to estimate how much liquidity can be added for token_1 =",
    );
    push_all(&mut m, &string_chars(token_1));
    push_str(&mut m, " when adding token_0 = ");
    push_all(&mut m, &string_chars(token_0));
    push_str(&mut m, ", amount_0 = ");
    push_all(&mut m, &amount_0.display());
    push_str(&mut m, ".");
    string_from_chars(&m)
}

fn add_liquidity_text(token_0: &String, amount_0: &NatValue, token_1: &String, amount_1: &NatValue) -> (s:
    String)
    ensures
        s@ == add_liquidity_message(token_0@, amount_0.value(), token_1@, amount_1.value()),
{
    let mut m = str_chars("Calling KongSwapBackend.add_liquidity to top up liquidity for token_0 = ");
    push_all(&mut m, &string_chars(token_0));
    push_str(&mut m, ", amount_0 = ");
    push_all(&mut m, &amount_0.display());
    push_str(&mut m, ", token_1 = ");
    push_all(&mut m, &string_chars(token_1));
    push_str(&mut m, ", amount_1 = ");
    push_all(&mut m, &amount_1.display());
    push_str(&mut m, ".");
    string_from_chars(&m)
}

fn claim_text(symbol: &String, claim_id: u64) -> (s: String)
    ensures
        s@ == claim_message(symbol@, claim_id),
{
    let mut m = str_chars("Calling KongSwapBackend.claim to claim the liquidity for ");
    push_all(&mut m, &string_chars(symbol));
    push_str(&mut m, ", claim ID ");
    push_all(&mut m, &u64_decimal(claim_id));
    push_str(&mut m, ".");
    string_from_chars(&m)
}

fn remove_amounts_text(amount: &NatValue) -> (s: String)
    ensures
        s@ == remove_amounts_message(amount.value()),
{
    let mut m = str_chars(
        "Calling KongSwapBackend.remove_liquidity_amounts to estimate how much liquidity can be removed for LP token amount ",
    );
    push_all(&mut m, &amount.display());
    push_str(&mut m, ".");
    string_from_chars(&m)
}

fn fixed_text(s: &str) -> (t: String)
    ensures
        t@ == s@,
{
    string_from_chars(&str_chars(s))
}

/// A call recorded under the operation's next step.
fn request(ctx: &mut OperationContext, canister_id: PrincipalId, call: Call, human_readable: String) -> (r:
    CallRequest)
    ensures
        r.operation == step_of(old(ctx)@),
        r.canister_id == canister_id,
        r.call == call,
        r.human_readable == human_readable,
        final(ctx)@ == ctx_after(old(ctx)@, 1),
{
    let operation = ctx.next_operation();
    proof {
        reveal_with_fuel(ctx_after, 2);
    }
    CallRequest { operation, canister_id, call, human_readable }
}

/// Where an operation stands: which calls it waits for.
#[derive(Clone, Copy, Debug, PartialEq, Eq, Structural)]
pub enum Stage {
    /// Deposit: the approval that lets KongSwap take allowance 0 or 1.
    Approve(usize),
    /// Deposit: the ledger balances before the pool is touched.
    BalancesBeforeDeposit,
    /// Deposit: adding token 0 or 1 to KongSwap.
    AddToken(usize),
    /// Deposit or refresh: KongSwap's refresh of token 0 or 1, and its ledger's metadata.
    Metadata(usize),
    AddPool,
    AddLiquidityAmounts,
    AddLiquidity,
    BalancesAfterDeposit,
    /// Withdrawal: the adaptor's LP balance.
    WithdrawLpBalance,
    BalancesBeforeRemoval,
    RemoveLiquidity,
    BalancesAfterRemoval,
    BalancesBeforeClaims,
    Claims,
    /// Withdrawal: claim `k` of the listed claims, with the balances after it.
    Claim(usize),
    /// Refresh: the adaptor's LP balance.
    RefreshLpBalance,
    RemoveLiquidityAmounts,
    /// Returning what the adaptor holds: its balances, the transfers, a refresh.
    ReturnBalances,
    ReturnTransfers,
    ReturnRefresh,
    Done,
}

/// What an operation asks for next.
pub enum Action {
    /// Make these calls, in order, and hand back what came of each.
    Perform(Vec<CallRequest>),
    /// Run a balance refresh (as an operation of its own), then go on with no replies.
    RefreshBalances,
    /// The operation is over, with this outcome.
    Finish(Result<(), Vec<Error>>),
}

/// An operation in progress.
pub struct Flow {
    pub context: OperationContext,
    pub stage: Stage,
    /// Deposit: the two allowances.
    pub allowances: Option<(ValidatedAllowance, ValidatedAllowance)>,
    /// Where what the adaptor holds is returned to.
    pub return_accounts: (Account, Account),
    /// Deposit: the outcome of the work with the DEX, once known.
    pub dex_result: Option<Result<(), Vec<Error>>>,
    /// Withdrawal: the LP tokens to remove.
    pub lp_amount: NatValue,
    /// Withdrawal: the claims that KongSwap listed (id and symbol).
    pub claims: Vec<(u64, String)>,
    /// Withdrawal: the errors of the claims made so far.
    pub claim_errors: Vec<Error>,
    /// Withdrawal: the removal, which left no claims, gave back more of a
    /// token, with its LP fees, than a `u64` holds.
    pub removal_overflows: bool,
}

/// Whether the stage belongs to a deposit.
pub open spec fn deposit_stage(s: Stage) -> bool {
    ||| s is Approve
    ||| s is BalancesBeforeDeposit
    ||| s is AddToken
    ||| s is AddPool
    ||| s is AddLiquidityAmounts
    ||| s is AddLiquidity
    ||| s is BalancesAfterDeposit
}

/// Whether the stage belongs to a withdrawal.
pub open spec fn withdraw_stage(s: Stage) -> bool {
    ||| s is WithdrawLpBalance
    ||| s is BalancesBeforeRemoval
    ||| s is RemoveLiquidity
    ||| s is BalancesAfterRemoval
    ||| s is BalancesBeforeClaims
    ||| s is Claims
    ||| s is Claim
}

/// Whether the stage belongs to a refresh.
pub open spec fn refresh_stage(s: Stage) -> bool {
    s is RefreshLpBalance || s is RemoveLiquidityAmounts
}

/// Whether the stage is one of returning what the adaptor holds.
pub open spec fn return_stage(s: Stage) -> bool {
    s is ReturnBalances || s is ReturnTransfers || s is ReturnRefresh
}

impl Flow {
    /// What an operation in progress keeps: each stage belongs to its
    /// operation; a deposit has its allowances, each
    /// covering its approval's fee, and knows how its work with the DEX went by
    /// the time it returns what the adaptor holds (a failure with errors); a
    /// claim being made is one of those listed; the asset and allowance
    /// indices are 0 or 1.
    pub open spec fn wf(self) -> bool {
        &&& deposit_stage(self.stage) ==> self.context@.0 == Operation::Deposit
        &&& withdraw_stage(self.stage) ==> self.context@.0 == Operation::Withdraw
        &&& refresh_stage(self.stage) ==> self.context@.0 == Operation::Balances
        &&& self.stage is Metadata ==> self.context@.0 == Operation::Deposit || self.context@.0
            == Operation::Balances
        &&& return_stage(self.stage) ==> self.context@.0 != Operation::Balances
        &&& self.allowances matches Some((a0, a1)) ==> a0.amount_decimals >= a0.asset@.fee
            && a1.amount_decimals >= a1.asset@.fee
        &&& (deposit_stage(self.stage) || (self.stage is Metadata && self.context@.0
            == Operation::Deposit)) ==> self.allowances is Some
        &&& self.context@.0 == Operation::Deposit && return_stage(self.stage) ==> self.dex_result is Some
        &&& self.dex_result matches Some(Err(e)) ==> e@.len() > 0
        &&& self.stage matches Stage::Claim(k) ==> k < self.claims@.len()
        &&& self.stage matches Stage::Metadata(i) ==> i < 2
        &&& self.stage matches Stage::Approve(i) ==> i < 2
        &&& self.stage matches Stage::AddToken(i) ==> i < 2
    }

    /// Whether `replies` are what the stage waits for: one reply of the kind
    /// that answers each call it asked for, in order.
    pub open spec fn expects(self, replies: Seq<Reply>) -> bool {
        match self.stage {
            Stage::Approve(_) => replies.len() == 1 && replies[0] is Approve,
            Stage::AddToken(_) => replies.len() == 1 && replies[0] is AddToken,
            Stage::Metadata(_) => replies.len() == 2 && replies[0] is UpdateToken
                && replies[1] is Metadata,
            Stage::AddPool => replies.len() == 1 && replies[0] is AddPool,
            Stage::AddLiquidityAmounts => replies.len() == 1 && replies[0] is AddLiquidityAmounts,
            Stage::AddLiquidity => replies.len() == 1 && replies[0] is AddLiquidity,
            Stage::WithdrawLpBalance | Stage::RefreshLpBalance => replies.len() == 1
                && replies[0] is UserBalances,
            Stage::RemoveLiquidity => replies.len() == 1 && replies[0] is RemoveLiquidity,
            Stage::Claims => replies.len() == 1 && replies[0] is Claims,
            Stage::Claim(_) => replies.len() == 3 && replies[0] is Claim && replies[1] is BalanceOf
                && replies[2] is BalanceOf,
            Stage::RemoveLiquidityAmounts => replies.len() == 1
                && replies[0] is RemoveLiquidityAmounts,
            Stage::ReturnTransfers => replies.len() <= 2 && forall|i: int|
                0 <= i < replies.len() ==> #[trigger] replies[i] is Transfer,
            Stage::BalancesAfterRemoval => replies.len() == 2 && replies[0] is BalanceOf
                && replies[1] is BalanceOf && !(self.removal_overflows && balance_fits(replies[0])
                && balance_fits(replies[1])),
            Stage::ReturnRefresh => replies.len() == 0,
            Stage::Done => false,
            _ => replies.len() == 2 && replies[0] is BalanceOf && replies[1] is BalanceOf,
        }
    }
}

/// Asset 0 or 1 of the balances.
pub open spec fn asset_at(b: ValidatedBalances, i: int) -> ValidatedAsset {
    if i == 0 {
        b.asset_0
    } else {
        b.asset_1
    }
}

/// The balances of an initialized adaptor.
pub open spec fn held(a: AdaptorView) -> ValidatedBalances {
    a.balances->Some_0
}

/// The allowance for token 0 or 1 of a deposit.
pub open spec fn allowance_at(f: Flow, i: int) -> ValidatedAllowance {
    if i == 0 {
        f.allowances->Some_0.0
    } else {
        f.allowances->Some_0.1
    }
}

/// Whether the reply to a balance query gives a balance that fits a `u64`.
pub open spec fn balance_fits(r: Reply) -> bool {
    r matches Reply::BalanceOf(Ok(n)) && n.value() < digit_base()
}

/// The balance that the reply to a balance query gives.
pub open spec fn balance_amount(r: Reply) -> u64 {
    (r->BalanceOf_0->Ok_0.value()) as u64
}

/// Whether `e` is the error of a balance reply that gives no balance.
pub open spec fn balance_error(r: Reply, e: Error) -> bool {
    match r {
        Reply::BalanceOf(Err(x)) => e == x,
        Reply::BalanceOf(Ok(n)) => e.code == ERROR_CODE_POSTCONDITION && e.kind
            == ErrorKind::Postcondition && e.message@ == decode_error_message(
            n.value(),
            significant_len(n.digits@),
        ),
        _ => false,
    }
}

/// Whether `es` are the errors of the two balance replies: one for each reply
/// that gives no balance, in order.
pub open spec fn balance_errors(r0: Reply, r1: Reply, es: Seq<Error>) -> bool {
    if !balance_fits(r0) && !balance_fits(r1) {
        es.len() == 2 && balance_error(r0, es[0]) && balance_error(r1, es[1])
    } else if !balance_fits(r0) {
        es.len() == 1 && balance_error(r0, es[0])
    } else if !balance_fits(r1) {
        es.len() == 1 && balance_error(r1, es[0])
    } else {
        false
    }
}

/// Whether adding the token of `ledger` to KongSwap went through: it did, or
/// the token exists already.
pub open spec fn token_added(ledger: Seq<u8>, r: Reply) -> bool {
    r matches Reply::AddToken(res) && (res is Ok || (res matches Err(e) && e.kind == ErrorKind::Backend
        && e.message@ == token_exists_message(kong_token_text(ledger))))
}

/// The asset as the metadata reply refreshes it, if the reply gives its symbol and fee.
pub open spec fn metadata_refresh(asset: crate::validation::AssetView, r: Reply) -> Option<crate::validation::AssetView> {
    match r {
        Reply::Metadata(Ok(md)) => match metadata_outcome(asset, md@) {
            Ok(v) => Some(v),
            Err(_) => None,
        },
        _ => None,
    }
}

/// The stage after an attempt to create the pool that failed with `e`, if it
/// did: a top-up when the pool exists already, else the balances after.
pub open spec fn after_pool(b: ValidatedBalances, failure: Option<Error>) -> Stage {
    if failure matches Some(e) && pool_exists_error(b, e) {
        Stage::AddLiquidityAmounts
    } else {
        Stage::BalancesAfterDeposit
    }
}

/// Whether `e` is the error with which the deposit failed to create the pool
/// at the stage `f.stage`: KongSwap's refusal to add a token or the pool, or
/// the ledger metadata that could not be taken.
pub open spec fn pool_step_error(f: Flow, b: ValidatedBalances, rs: Seq<Reply>, e: Error) -> bool {
    match f.stage {
        Stage::AddPool => rs[0] == Reply::AddPool(Err(e)),
        Stage::AddToken(_) => rs[0] == Reply::AddToken(Err(e)),
        Stage::Metadata(i) => match rs[1] {
            Reply::Metadata(Err(x)) => e == x,
            Reply::Metadata(Ok(md)) => metadata_outcome(asset_at(b, i as int)@, md@) matches Err(m)
                && e.code == ERROR_CODE_POSTCONDITION && e.kind == ErrorKind::Postcondition
                && e.message@ == m,
            _ => false,
        },
        _ => false,
    }
}

/// Whether the LP balances that the reply gives include that of the adaptor's pool.
pub open spec fn lp_reply_found(b: ValidatedBalances, r: Reply) -> bool {
    r matches Reply::UserBalances(Ok(s)) && lp_balance_found(lp_token_text(b), s@)
}

/// The LP balance of the adaptor's pool that the reply gives.
pub open spec fn lp_reply_value(b: ValidatedBalances, r: Reply) -> nat {
    lp_balance_value(lp_token_text(b), r->UserBalances_0->Ok_0@)
}

/// What is returned of a ledger balance: the balance less the transfer fee,
/// or nothing when the fee exceeds it.
pub open spec fn returned(balance: u64, fee: u64) -> u64 {
    if balance >= fee {
        (balance - fee) as u64
    } else {
        0
    }
}

/// The errors among the transfers' replies, in order.
pub open spec fn transfer_errors(rs: Seq<Reply>) -> Seq<Error>
    decreases rs.len(),
{
    if rs.len() == 0 {
        Seq::empty()
    } else {
        let rest = transfer_errors(rs.drop_last());
        match rs.last() {
            Reply::Transfer(Err(e)) => rest.push(e),
            _ => rest,
        }
    }
}

/// Whether the removal of liquidity gave its amounts back at once, with no claims.
pub open spec fn removal_clean(r: Reply) -> bool {
    r matches Reply::RemoveLiquidity(Ok(x)) && x.claim_ids@.len() == 0
}

/// Whether the estimate of a removal gives two amounts that fit a `u64`.
pub open spec fn amounts_fit(r: Reply) -> bool {
    r matches Reply::RemoveLiquidityAmounts(Ok(x)) && x.amount_0.value() < digit_base()
        && x.amount_1.value() < digit_base()
}

/// The stage that an operation goes on to, from the replies of its last calls.
pub open spec fn next_stage(f: Flow, a: AdaptorView, rs: Seq<Reply>) -> Stage {
    let b = held(a);
    match f.stage {
        Stage::Approve(i) => if rs[0] matches Reply::Approve(Ok(_)) {
            if i == 0 {
                Stage::Approve(1)
            } else {
                Stage::BalancesBeforeDeposit
            }
        } else {
            Stage::ReturnBalances
        },
        Stage::BalancesBeforeDeposit => if balance_fits(rs[0]) && balance_fits(rs[1]) {
            Stage::AddToken(0)
        } else {
            Stage::ReturnBalances
        },
        Stage::AddToken(i) => if token_added(allowance_at(f, i as int).asset@.ledger, rs[0]) {
            if i == 0 {
                Stage::AddToken(1)
            } else {
                Stage::Metadata(0)
            }
        } else {
            after_pool(b, Some(rs[0]->AddToken_0->Err_0))
        },
        Stage::Metadata(i) => {
            let refreshed_ok = metadata_refresh(asset_at(b, i as int)@, rs[1]) is Some;
            if refreshed_ok && i == 0 {
                Stage::Metadata(1)
            } else if f.context@.0 == Operation::Deposit {
                if refreshed_ok {
                    Stage::AddPool
                } else {
                    match rs[1] {
                        Reply::Metadata(Err(e)) => after_pool(b, Some(e)),
                        _ => Stage::BalancesAfterDeposit,
                    }
                }
            } else {
                Stage::RefreshLpBalance
            }
        },
        Stage::AddPool => match rs[0] {
            Reply::AddPool(Err(e)) => after_pool(b, Some(e)),
            _ => Stage::BalancesAfterDeposit,
        },
        Stage::AddLiquidityAmounts => if rs[0] matches Reply::AddLiquidityAmounts(Ok(_)) {
            Stage::AddLiquidity
        } else {
            Stage::ReturnBalances
        },
        Stage::AddLiquidity => if rs[0] matches Reply::AddLiquidity(Ok(_)) {
            Stage::BalancesAfterDeposit
        } else {
            Stage::ReturnBalances
        },
        Stage::BalancesAfterDeposit => Stage::ReturnBalances,
        Stage::WithdrawLpBalance => if lp_reply_found(b, rs[0]) && lp_reply_value(b, rs[0]) > 0 {
            Stage::BalancesBeforeRemoval
        } else {
            Stage::BalancesBeforeClaims
        },
        Stage::BalancesBeforeRemoval => if balance_fits(rs[0]) && balance_fits(rs[1]) {
            Stage::RemoveLiquidity
        } else {
            Stage::BalancesBeforeClaims
        },
        Stage::RemoveLiquidity => if removal_clean(rs[0]) {
            Stage::BalancesAfterRemoval
        } else {
            Stage::BalancesBeforeClaims
        },
        Stage::BalancesAfterRemoval => Stage::BalancesBeforeClaims,
        Stage::BalancesBeforeClaims => if balance_fits(rs[0]) && balance_fits(rs[1]) {
            Stage::Claims
        } else {
            Stage::ReturnBalances
        },
        Stage::Claims => if rs[0] matches Reply::Claims(Ok(l)) && l@.len() > 0 {
            Stage::Claim(0)
        } else {
            Stage::ReturnBalances
        },
        Stage::Claim(k) => if balance_fits(rs[1]) && balance_fits(rs[2]) && k + 1 < f.claims@.len() {
            Stage::Claim((k + 1) as usize)
        } else {
            Stage::ReturnBalances
        },
        Stage::RefreshLpBalance => if lp_reply_found(b, rs[0]) {
            Stage::RemoveLiquidityAmounts
        } else {
            Stage::Done
        },
        Stage::RemoveLiquidityAmounts => Stage::Done,
        Stage::ReturnBalances => if balance_fits(rs[0]) && balance_fits(rs[1]) {
            if returned(balance_amount(rs[0]), b.asset_0@.fee) == 0 && returned(
                balance_amount(rs[1]),
                b.asset_1@.fee,
            ) == 0 {
                Stage::ReturnRefresh
            } else {
                Stage::ReturnTransfers
            }
        } else {
            Stage::Done
        },
        Stage::ReturnTransfers => if transfer_errors(rs).len() > 0 {
            Stage::Done
        } else {
            Stage::ReturnRefresh
        },
        Stage::ReturnRefresh => Stage::Done,
        Stage::Done => Stage::Done,
    }
}

/// Whether `r` asks for the adaptor's balance of asset `i`, under step `op`.
pub open spec fn balance_query(r: CallRequest, op: TreasuryManagerOperation, a: AdaptorView, i: int) -> bool {
    let asset = asset_at(held(a), i);
    &&& addressed(r, op, asset@.ledger, balance_message(asset@.ledger, asset@.symbol))
    &&& r.call matches Call::BalanceOf(acc) && acc.owner@ == a.id && acc.subaccount is None
}

/// Whether `rs` ask for the adaptor's balances of the two assets, from the
/// counter `ctx` on.
pub open spec fn balances_batch(rs: Seq<CallRequest>, ctx: (Operation, Option<usize>), a: AdaptorView) -> bool {
    &&& rs.len() == 2
    &&& balance_query(rs[0], step_of(ctx), a, 0)
    &&& balance_query(rs[1], step_of(ctx_after(ctx, 1)), a, 1)
}

/// Whether `r` is the transfer of `amount` of the asset to `to`, under step `op`.
/// The transfer carries no memo: the bytes that would name the step there are
/// defined by the treasury-manager interface crate, which this library does
/// not have (see the README).
pub open spec fn transfer_call(
    r: CallRequest,
    op: TreasuryManagerOperation,
    asset: ValidatedAsset,
    amount: u64,
    to: Account,
    now: u64,
) -> bool {
    &&& addressed(r, op, asset@.ledger, transfer_message(asset@.ledger, amount, asset@.symbol, to))
    &&& r.call matches Call::Transfer(args) && is_transfer_of(args, asset@, amount, to, now, None)
}

/// Whether `rs` are the calls with which the operation enters its stage `g.stage`,
/// from the counter of `f` on, after the replies `replies` of the stage `f.stage`.
pub open spec fn issues(
    rs: Seq<CallRequest>,
    f: Flow,
    g: Flow,
    a: AdaptorView,
    replies: Seq<Reply>,
    now: u64,
) -> bool {
    let ctx = f.context@;
    let b = held(a);
    let kong = kong_backend_bytes();
    match g.stage {
        Stage::Approve(i) => {
            let al = allowance_at(g, i as int);
            &&& rs.len() == 1
            &&& addressed(rs[0], step_of(ctx), al.asset@.ledger, approve_message(al.asset@.symbol))
            &&& rs[0].call matches Call::Approve(args) && is_approval_of(args, al)
        },
        Stage::AddToken(i) => {
            let ledger = allowance_at(g, i as int).asset@.ledger;
            &&& rs.len() == 1
            &&& addressed(rs[0], step_of(ctx), kong, add_token_message(kong_token_text(ledger)))
            &&& rs[0].call matches Call::AddToken(args) && args.token@ == kong_token_text(ledger)
        },
        Stage::Metadata(i) => {
            let ledger = asset_at(b, i as int)@.ledger;
            &&& rs.len() == 2
            &&& addressed(rs[0], step_of(ctx), kong, update_token_message(i as nat, ledger))
            &&& rs[0].call matches Call::UpdateToken(args) && args.token@ == kong_token_text(ledger)
            &&& addressed(rs[1], step_of(ctx_after(ctx, 1)), ledger, metadata_message(i as nat, ledger))
            &&& rs[1].call == Call::Metadata
        },
        Stage::AddPool => {
            &&& rs.len() == 1
            &&& addressed(rs[0], step_of(ctx), kong, "Calling KongSwapBackend.add_pool to add a new pool."@)
            &&& rs[0].call matches Call::AddPool(args) && is_add_pool_of(
                args,
                allowance_at(g, 0),
                allowance_at(g, 1),
            )
        },
        Stage::AddLiquidityAmounts => {
            &&& rs.len() == 1
            &&& rs[0].call matches Call::AddLiquidityAmounts(args) && is_amounts_query_of(
                args,
                allowance_at(g, 0),
                allowance_at(g, 1),
            ) && addressed(
                rs[0],
                step_of(ctx),
                kong,
                amounts_message(args.token_0@, args.amount.value(), args.token_1@),
            )
        },
        Stage::AddLiquidity => {
            &&& rs.len() == 1
            &&& replies[0] matches Reply::AddLiquidityAmounts(Ok(q)) && rs[0].call matches Call::AddLiquidity(
                args,
            ) && is_top_up_of(args, allowance_at(g, 0), allowance_at(g, 1), q.amount_1) && addressed(
                rs[0],
                step_of(ctx),
                kong,
                add_liquidity_message(
                    args.token_0@,
                    args.amount_0.value(),
                    args.token_1@,
                    args.amount_1.value(),
                ),
            )
        },
        Stage::WithdrawLpBalance | Stage::RefreshLpBalance => {
            &&& rs.len() == 1
            &&& addressed(rs[0], step_of(ctx), kong, "Calling KongSwapBackend.user_balances to get LP balances."@)
            &&& rs[0].call matches Call::UserBalances(args) && args.principal_id@ == principal_text(a.id)
        },
        Stage::RemoveLiquidity => {
            &&& rs.len() == 1
            &&& addressed(
                rs[0],
                step_of(ctx),
                kong,
                "Calling KongSwapBackend.remove_liquidity to withdraw all allocated tokens."@,
            )
            &&& rs[0].call matches Call::RemoveLiquidity(args) && args.token_0@ == symbol_text(
                b.asset_0@.symbol,
            ) && args.token_1@ == symbol_text(b.asset_1@.symbol) && args.remove_lp_token_amount.digits@
                == g.lp_amount.digits@
        },
        Stage::Claims => {
            &&& rs.len() == 1
            &&& addressed(
                rs[0],
                step_of(ctx),
                kong,
                "Calling KongSwapBackend.claims to check if a retry withdrawal is needed."@,
            )
            &&& rs[0].call matches Call::Claims(t) && t@ == principal_text(a.id)
        },
        Stage::Claim(k) => {
            let claim = g.claims@[k as int];
            &&& rs.len() == 3
            &&& addressed(rs[0], step_of(ctx), kong, claim_message(claim.1@, claim.0))
            &&& rs[0].call == Call::Claim(claim.0)
            &&& balances_batch(rs.drop_first(), ctx_after(ctx, 1), a)
        },
        Stage::RemoveLiquidityAmounts => {
            &&& rs.len() == 1
            &&& rs[0].call matches Call::RemoveLiquidityAmounts(args) && args.token_0@ == symbol_text(
                b.asset_0@.symbol,
            ) && args.token_1@ == symbol_text(b.asset_1@.symbol)
                && args.remove_lp_token_amount.value() == lp_reply_value(b, replies[0]) && addressed(
                rs[0],
                step_of(ctx),
                kong,
                remove_amounts_message(lp_reply_value(b, replies[0])),
            )
        },
        Stage::ReturnTransfers => {
            let x0 = returned(balance_amount(replies[0]), b.asset_0@.fee);
            let x1 = returned(balance_amount(replies[1]), b.asset_1@.fee);
            let n0: int = if x0 > 0 { 1 } else { 0 };
            &&& rs.len() == n0 + if x1 > 0 { 1int } else { 0int }
            &&& x0 > 0 ==> transfer_call(rs[0], step_of(ctx), b.asset_0, x0, g.return_accounts.0, now)
            &&& x1 > 0 ==> transfer_call(
                rs[n0],
                step_of(ctx_after(ctx, n0 as nat)),
                b.asset_1,
                x1,
                g.return_accounts.1,
                now,
            )
        },
        Stage::ReturnRefresh | Stage::Done => false,
        _ => balances_batch(rs, ctx, a),
    }
}

/// Whether the deposit's work with the DEX failed.
pub open spec fn dex_failed(f: Flow) -> bool {
    f.context@.0 == Operation::Deposit && f.dex_result matches Some(Err(_))
}

/// The errors of the deposit's work with the DEX.
pub open spec fn dex_errors(f: Flow) -> Seq<Error> {
    if dex_failed(f) {
        f.dex_result->Some_0->Err_0@
    } else {
        Seq::empty()
    }
}

/// Whether `out` is how an operation ends after returning what the adaptor
/// holds with the errors `ret` (none when the return went through): with the
/// errors of a deposit's work with the DEX, then those of the return.
pub open spec fn ends_after_return(f: Flow, out: Result<(), Vec<Error>>, ret: Seq<Error>) -> bool {
    if dex_errors(f).len() + ret.len() == 0 {
        out is Ok
    } else {
        out matches Err(x) && x@ == dex_errors(f) + ret
    }
}

/// Whether the operation's last audit-trail step is marked final when it ends
/// with `out`: for a deposit or withdrawal only when it succeeds.
pub open spec fn finalized_on(op: Operation, out: Result<(), Vec<Error>>) -> bool {
    match op {
        Operation::Deposit | Operation::Withdraw => out is Ok,
        _ => true,
    }
}

/// The errors that a result holds: none for a success or for no result yet.
pub open spec fn errs_of(r: Option<Result<(), Vec<Error>>>) -> Seq<Error> {
    match r {
        Some(Err(es)) => es@,
        _ => Seq::empty(),
    }
}

/// Whether `r` is the result with the errors `es`: a success when there are none.
pub open spec fn result_with(r: Option<Result<(), Vec<Error>>>, es: Seq<Error>) -> bool {
    if es.len() == 0 {
        r == Some(Ok::<(), Vec<Error>>(()))
    } else {
        r matches Some(Err(x)) && x@ == es
    }
}

/// Whether `r` holds the errors `d`, then the errors of the balance replies.
pub open spec fn result_then_balance_errors(r: Option<Result<(), Vec<Error>>>, d: Seq<Error>, r0: Reply, r1: Reply) -> bool {
    r matches Some(Err(x)) && x@.take(d.len() as int) == d && balance_errors(r0, r1, x@.skip(d.len() as int))
}

/// Whether the claim errors go from `before` to `after` on the claim
/// `claim_id` that came back with `response`: with its error when it failed.
pub open spec fn claim_recorded(
    b: ValidatedBalances,
    claim_id: u64,
    response: Result<(Option<String>, NatValue), Error>,
    before: Seq<Error>,
    after: Seq<Error>,
) -> bool {
    if claim_accepted(b, response) {
        after == before
    } else {
        after.len() == before.len() + 1 && after.drop_last() == before && claim_error(
            b,
            claim_id,
            response,
            after.last(),
        )
    }
}

/// How a withdrawal's step keeps what its work with the DEX came to, as
/// `dex_result`: first the removal (an error of the LP balance, of a balance
/// query, of the removal, or claims that it left), then the claims (an error
/// of a balance query, or of the list of claims, or the errors of the claims,
/// which gather in `claim_errors`). A withdrawal does not report them.
pub open spec fn withdraw_carried(f: Flow, g: Flow, b: ValidatedBalances, rs: Seq<Reply>) -> bool {
    let d = errs_of(f.dex_result);
    let fits = balance_fits(rs[0]) && balance_fits(rs[1]);
    match f.stage {
        Stage::WithdrawLpBalance => g.claim_errors@ == f.claim_errors@ && if g.stage is BalancesBeforeRemoval {
            g.dex_result == f.dex_result
        } else {
            match rs[0] {
                Reply::UserBalances(Err(e)) => result_with(g.dex_result, seq![e]),
                Reply::UserBalances(Ok(l)) => if lp_balance_found(lp_token_text(b), l@) {
                    result_with(g.dex_result, Seq::empty())
                } else {
                    g.dex_result matches Some(Err(x)) && x@.len() == 1 && lp_balance_error(
                        x@[0],
                        lp_token_text(b),
                        l@,
                    )
                },
                _ => false,
            }
        },
        Stage::BalancesBeforeRemoval => g.claim_errors@ == f.claim_errors@ && if fits {
            g.dex_result == f.dex_result
        } else {
            g.dex_result matches Some(Err(x)) && balance_errors(rs[0], rs[1], x@)
        },
        Stage::RemoveLiquidity => g.claim_errors@ == f.claim_errors@ && match rs[0] {
            Reply::RemoveLiquidity(Err(e)) => result_with(g.dex_result, seq![e]),
            Reply::RemoveLiquidity(Ok(r)) => if r.claim_ids@.len() == 0 {
                g.dex_result == f.dex_result
            } else {
                g.dex_result matches Some(Err(x)) && x@.len() == 1 && x@[0].code == ERROR_CODE_BACKEND
                    && x@[0].kind == ErrorKind::Backend && x@[0].message@
                    == "Withdrawal from DEX might not be complete, returned claims: "@ + claim_ids_text(
                    r.claim_ids@,
                ) + "."@
            },
            _ => false,
        },
        Stage::BalancesAfterRemoval => g.claim_errors@ == f.claim_errors@ && if fits {
            result_with(g.dex_result, Seq::empty())
        } else {
            g.dex_result matches Some(Err(x)) && balance_errors(rs[0], rs[1], x@)
        },
        Stage::BalancesBeforeClaims => g.claim_errors@ == f.claim_errors@ && if fits {
            g.dex_result == f.dex_result
        } else {
            result_then_balance_errors(g.dex_result, d, rs[0], rs[1])
        },
        Stage::Claims => if g.stage is Claim {
            g.dex_result == f.dex_result && g.claim_errors@ == Seq::<Error>::empty()
        } else {
            g.claim_errors@ == f.claim_errors@ && match rs[0] {
                Reply::Claims(Err(e)) => result_with(g.dex_result, d.push(e)),
                _ => result_with(g.dex_result, d),
            }
        },
        Stage::Claim(k) => if !(balance_fits(rs[1]) && balance_fits(rs[2])) {
            g.claim_errors@ == f.claim_errors@ && result_then_balance_errors(g.dex_result, d, rs[1], rs[2])
        } else {
            &&& claim_recorded(b, f.claims@[k as int].0, rs[0]->Claim_0, f.claim_errors@, g.claim_errors@)
            &&& g.stage is Claim ==> g.dex_result == f.dex_result
            &&& g.stage is ReturnBalances ==> result_with(g.dex_result, d + g.claim_errors@)
        },
        _ => true,
    }
}

/// Whether `out` is how the operation ends after the replies `rs` of the stage `f.stage`.
pub open spec fn outcome(f: Flow, a: AdaptorView, rs: Seq<Reply>, out: Result<(), Vec<Error>>) -> bool {
    let b = held(a);
    match f.stage {
        Stage::ReturnBalances => {
            let d = dex_errors(f).len();
            out matches Err(x) && x@.take(d as int) == dex_errors(f) && balance_errors(
                rs[0],
                rs[1],
                x@.skip(d as int),
            )
        },
        Stage::ReturnTransfers => ends_after_return(f, out, transfer_errors(rs)),
        Stage::ReturnRefresh => ends_after_return(f, out, Seq::empty()),
        Stage::RefreshLpBalance => out matches Err(x) && x@.len() == 1 && match rs[0] {
            Reply::UserBalances(Err(e)) => x@[0] == e,
            Reply::UserBalances(Ok(l)) => lp_balance_error(x@[0], lp_token_text(b), l@),
            _ => false,
        },
        Stage::RemoveLiquidityAmounts => if amounts_fit(rs[0]) {
            out is Ok
        } else {
            out matches Err(x) && x@.len() == 1 && match rs[0] {
                Reply::RemoveLiquidityAmounts(Err(e)) => x@[0] == e,
                Reply::RemoveLiquidityAmounts(Ok(r)) => {
                    let n = if r.amount_0.value() >= digit_base() {
                        r.amount_0
                    } else {
                        r.amount_1
                    };
                    &&& x@[0].code == ERROR_CODE_POSTCONDITION
                    &&& x@[0].kind == ErrorKind::Postcondition
                    &&& x@[0].message@ == decode_error_message(n.value(), significant_len(n.digits@))
                },
                _ => false,
            }
        },
        _ => false,
    }
}

/// Whether `g` keeps what the operation knows, after the replies `rs` of the stage `f.stage`.
pub open spec fn carried(f: Flow, g: Flow, a: AdaptorView, rs: Seq<Reply>) -> bool {
    let b = held(a);
    &&& g.allowances == f.allowances
    &&& g.return_accounts == f.return_accounts
    &&& g.context@.0 == f.context@.0
    &&& if f.stage is WithdrawLpBalance && g.stage is BalancesBeforeRemoval {
        g.lp_amount.value() == lp_reply_value(b, rs[0])
    } else {
        g.lp_amount == f.lp_amount
    }
    &&& if f.stage is Claims && g.stage is Claim {
        rs[0] matches Reply::Claims(Ok(l)) && g.claims@ == l@
    } else {
        g.claims@ == f.claims@
    }
    &&& if deposit_stage(f.stage) && g.stage is ReturnBalances {
        g.dex_result matches Some(r) && match f.stage {
            Stage::BalancesBeforeDeposit => r matches Err(es) && balance_errors(rs[0], rs[1], es@),
            Stage::BalancesAfterDeposit => if balance_fits(rs[0]) && balance_fits(rs[1]) {
                &&& (f.dex_result matches Some(Err(x)) ==> r == Err::<(), Vec<Error>>(x))
                &&& (f.dex_result is None || f.dex_result is Some && f.dex_result->Some_0 is Ok) ==> r is Ok
            } else {
                r matches Err(es) && balance_errors(rs[0], rs[1], es@)
            },
            Stage::Approve(_) => r matches Err(es) && rs[0] matches Reply::Approve(Err(e)) && es@ == seq![e],
            Stage::AddLiquidityAmounts => r matches Err(es) && rs[0] matches Reply::AddLiquidityAmounts(
                Err(e),
            ) && es@ == seq![e],
            Stage::AddLiquidity => r matches Err(es) && rs[0] matches Reply::AddLiquidity(Err(e))
                && es@ == seq![e],
            _ => false,
        }
    } else if g.stage is BalancesAfterDeposit && (f.stage is AddToken || f.stage is Metadata || (
    f.stage is AddPool && (rs[0] matches Reply::AddPool(Err(_))))) {
        g.dex_result matches Some(Err(es)) && es@.len() == 1 && pool_step_error(f, b, rs, es@[0])
    } else if withdraw_stage(f.stage) {
        withdraw_carried(f, g, b, rs)
    } else if g.stage is Done {
        true
    } else {
        g.dex_result == f.dex_result
    }
    &&& !withdraw_stage(f.stage) ==> g.claim_errors@ == f.claim_errors@
    &&& g.removal_overflows == if f.stage is RemoveLiquidity && removal_clean(rs[0]) {
        removal_overflow(rs[0]->RemoveLiquidity_0->Ok_0)
    } else {
        f.removal_overflows
    }
}

/// Whether `c` is the adaptor after the replies `rs` of the stage `f.stage`,
/// before the operation marks its last step final: a metadata reply that gives
/// the symbol and fee refreshes the asset, and an estimate of the removal that
/// fits sets the balances, taken at `now`.
pub open spec fn adapted(f: Flow, a: AdaptorView, c: AdaptorView, rs: Seq<Reply>, now: u64) -> bool {
    let b = held(a);
    &&& c.id == a.id
    &&& c.audit_trail == a.audit_trail
    &&& c.balances is Some
    &&& match f.stage {
        Stage::Metadata(i) => match metadata_refresh(asset_at(b, i as int)@, rs[1]) {
            Some(v) => {
                let nb = held(c);
                &&& asset_at(nb, i as int)@ == refreshed(asset_at(b, i as int)@, v)
                &&& asset_at(nb, 1 - i) == asset_at(b, 1 - i)
                &&& nb.timestamp_ns == b.timestamp_ns
                &&& nb.balance_0_decimals == b.balance_0_decimals
                &&& nb.balance_1_decimals == b.balance_1_decimals
                &&& nb.owner_account_0 == b.owner_account_0
                &&& nb.owner_account_1 == b.owner_account_1
            },
            None => c.balances == a.balances,
        },
        Stage::RemoveLiquidityAmounts => if amounts_fit(rs[0]) {
            let x = rs[0]->RemoveLiquidityAmounts_0->Ok_0;
            c.balances == Some(
                ValidatedBalances {
                    balance_0_decimals: x.amount_0.value() as u64,
                    balance_1_decimals: x.amount_1.value() as u64,
                    timestamp_ns: now,
                    ..b
                },
            )
        } else {
            c.balances == a.balances
        },
        _ => c.balances == a.balances,
    }
}

/// Whether the operation went from `f` to `g`, and the adaptor from `a` to `c`,
/// on the replies `rs`, asking for `action` next.
pub open spec fn resumed(
    f: Flow,
    g: Flow,
    a: AdaptorView,
    c: AdaptorView,
    rs: Seq<Reply>,
    now: u64,
    action: Action,
) -> bool {
    &&& g.stage == next_stage(f, a, rs)
    &&& g.wf()
    &&& carried(f, g, a, rs)
    &&& match action {
        Action::Perform(reqs) => {
            &&& issues(reqs@, f, g, c, rs, now)
            &&& g.context@ == ctx_after(f.context@, reqs@.len())
            &&& adapted(f, a, c, rs, now)
        },
        Action::RefreshBalances => {
            &&& g.stage == Stage::ReturnRefresh
            &&& g.context == f.context
            &&& adapted(f, a, c, rs, now)
        },
        Action::Finish(out) => {
            &&& g.stage == Stage::Done
            &&& outcome(f, a, rs, out)
            &&& adapted(f, a, AdaptorView { audit_trail: a.audit_trail, ..c }, rs, now)
            &&& c.audit_trail == if finalized_on(f.context@.0, out) {
                finalize_trail(a.audit_trail, f.context@.0)
            } else {
                a.audit_trail
            }
        },
    }
}

proof fn lemma_ctx_after_add(c: (Operation, Option<usize>), m: nat, n: nat)
    ensures
        ctx_after(ctx_after(c, m), n) == ctx_after(c, m + n),
    decreases n,
{
    if n > 0 {
        lemma_ctx_after_add(c, m, (n - 1) as nat);
    }
}

fn balance_of(reply: Reply) -> (r: Result<NatValue, Error>)
    requires
        reply is BalanceOf,
    ensures
        reply == Reply::BalanceOf(r),
{
    match reply {
        Reply::BalanceOf(r) => r,
        _ => {
            assert(false);
            Err(Error::new_backend(String::new()))
        },
    }
}

fn balance_result(b: Result<NatValue, Error>) -> (r: Result<u64, Error>)
    ensures
        balance_fits(Reply::BalanceOf(b)) ==> r == Ok::<u64, Error>(balance_amount(Reply::BalanceOf(b))),
        !balance_fits(Reply::BalanceOf(b)) ==> (r matches Err(e) && balance_error(Reply::BalanceOf(b), e)),
{
    match b {
        Ok(n) => ledger_balance_from_reply(&n),
        Err(e) => Err(e),
    }
}

/// The ledger balances from the replies of the two balance queries.
fn two_balances(replies: Vec<Reply>) -> (res: Result<(u64, u64), Vec<Error>>)
    requires
        replies@.len() == 2,
        replies@[0] is BalanceOf,
        replies@[1] is BalanceOf,
    ensures
        balance_fits(replies@[0]) && balance_fits(replies@[1]) ==> res == Ok::<(u64, u64), Vec<Error>>(
            (balance_amount(replies@[0]), balance_amount(replies@[1])),
        ),
        !(balance_fits(replies@[0]) && balance_fits(replies@[1])) ==> (res matches Err(es)
            && balance_errors(replies@[0], replies@[1], es@)),
{
    let ghost rs = replies@;
    let mut replies = replies;
    let second = balance_of(replies.pop().unwrap());
    let first = balance_of(replies.pop().unwrap());
    assert(rs[0] == Reply::BalanceOf(first) && rs[1] == Reply::BalanceOf(second));
    let r0 = balance_result(first);
    let r1 = balance_result(second);
    combine_balance_results(r0, r1)
}

fn one_reply(replies: Vec<Reply>) -> (r: Reply)
    requires
        replies@.len() == 1,
    ensures
        r == replies@[0],
{
    let mut replies = replies;
    replies.pop().unwrap()
}

fn last_reply(replies: Vec<Reply>) -> (r: Reply)
    requires
        replies@.len() > 0,
    ensures
        r == replies@.last(),
{
    let mut replies = replies;
    replies.pop().unwrap()
}

fn single(r: CallRequest) -> (v: Vec<CallRequest>)
    ensures
        v@ == seq![r],
{
    let mut v: Vec<CallRequest> = Vec::new();
    v.push(r);
    v
}

fn reply_balance_fits(r: &Reply) -> (fits: bool)
    ensures
        fits == balance_fits(*r),
{
    match r {
        Reply::BalanceOf(Ok(n)) => decode_nat_to_u64(n).is_ok(),
        _ => false,
    }
}

/// The result with the errors of `prev`, then those of `more`.
fn with_more_errors(prev: &Option<Result<(), Vec<Error>>>, more: &Vec<Error>) -> (r: Option<
    Result<(), Vec<Error>>,
>)
    ensures
        result_with(r, errs_of(*prev) + more@),
{
    let mut all: Vec<Error> = Vec::new();
    let ghost d = errs_of(*prev);
    if let Some(Err(es)) = prev {
        let mut i: usize = 0;
        while i < es.len()
            invariant
                i <= es@.len(),
                all@ == es@.take(i as int),
            decreases es@.len() - i,
        {
            all.push(es[i].duplicate());
            assert(es@.take(i + 1) =~= es@.take(i as int).push(es@[i as int]));
            i = i + 1;
        }
        assert(es@.take(i as int) =~= es@);
    }
    assert(all@ =~= d);
    let mut j: usize = 0;
    while j < more.len()
        invariant
            j <= more@.len(),
            all@ == d + more@.take(j as int),
        decreases more@.len() - j,
    {
        all.push(more[j].duplicate());
        assert(more@.take(j + 1) =~= more@.take(j as int).push(more@[j as int]));
        assert(d + more@.take(j + 1) =~= (d + more@.take(j as int)).push(more@[j as int]));
        j = j + 1;
    }
    assert(more@.take(j as int) =~= more@);
    if all.len() == 0 {
        Some(Ok(()))
    } else {
        Some(Err(all))
    }
}

fn vec_of_errors(e: Error) -> (v: Vec<Error>)
    ensures
        v@ == seq![e],
{
    let mut v: Vec<Error> = Vec::new();
    v.push(e);
    v
}

impl Flow {
    fn new(context: OperationContext, stage: Stage, return_accounts: (Account, Account)) -> (f: Flow)
        ensures
            f.context == context,
            f.stage == stage,
            f.allowances is None,
            f.return_accounts == return_accounts,
            f.dex_result is None,
            f.lp_amount.value() == 0,
            f.claims@.len() == 0,
            f.claim_errors@.len() == 0,
            !f.removal_overflows,
    {
        Flow {
            context,
            stage,
            allowances: None,
            return_accounts,
            dex_result: None,
            lp_amount: NatValue::from_u64(0),
            claims: Vec::new(),
            claim_errors: Vec::new(),
            removal_overflows: false,
        }
    }

    /// The queries of the adaptor's balances on the two ledgers.
    fn balances_batch(&mut self, adaptor: &KongSwapAdaptor) -> (rs: Vec<CallRequest>)
        requires
            adaptor@.balances is Some,
        ensures
            balances_batch(rs@, old(self).context@, adaptor@),
            final(self).context@ == ctx_after(old(self).context@, 2),
            *final(self) == (Flow { context: final(self).context, ..*old(self) }),
    {
        let ghost c0 = self.context@;
        let (asset_0, asset_1) = adaptor.assets();
        let account = adaptor.manager_account();
        let r0 = request(
            &mut self.context,
            asset_0.ledger_canister_id(),
            Call::BalanceOf(account),
            balance_text(&asset_0),
        );
        let r1 = request(
            &mut self.context,
            asset_1.ledger_canister_id(),
            Call::BalanceOf(account),
            balance_text(&asset_1),
        );
        proof {
            lemma_ctx_after_add(c0, 1, 1);
        }
        let mut rs: Vec<CallRequest> = Vec::new();
        rs.push(r0);
        rs.push(r1);
        rs
    }

    fn approve_batch(&mut self, allowance: &ValidatedAllowance) -> (rs: Vec<CallRequest>)
        requires
            allowance.amount_decimals >= allowance.asset@.fee,
        ensures
            rs@.len() == 1,
            addressed(rs@[0], step_of(old(self).context@), allowance.asset@.ledger, approve_message(allowance.asset@.symbol)),
            rs@[0].call matches Call::Approve(args) && is_approval_of(args, *allowance),
            final(self).context@ == ctx_after(old(self).context@, 1),
            *final(self) == (Flow { context: final(self).context, ..*old(self) }),
    {
        let r = request(
            &mut self.context,
            allowance.asset.ledger_canister_id(),
            Call::Approve(approve_request(allowance)),
            approve_text(&allowance.asset),
        );
        single(r)
    }

    fn add_token_batch(&mut self, ledger: &PrincipalId) -> (rs: Vec<CallRequest>)
        ensures
            rs@.len() == 1,
            addressed(rs@[0], step_of(old(self).context@), kong_backend_bytes(), add_token_message(kong_token_text(ledger@))),
            rs@[0].call matches Call::AddToken(args) && args.token@ == kong_token_text(ledger@),
            final(self).context@ == ctx_after(old(self).context@, 1),
            *final(self) == (Flow { context: final(self).context, ..*old(self) }),
    {
        let args = add_token_request(ledger);
        let text = add_token_text(&args.token);
        single(request(&mut self.context, kong_backend_canister_id(), Call::AddToken(args), text))
    }

    fn metadata_batch(&mut self, adaptor: &KongSwapAdaptor, asset_id: usize) -> (rs: Vec<CallRequest>)
        requires
            adaptor@.balances is Some,
            asset_id < 2,
        ensures
            ({
                let ledger = asset_at(held(adaptor@), asset_id as int)@.ledger;
                let ctx = old(self).context@;
                &&& rs@.len() == 2
                &&& addressed(rs@[0], step_of(ctx), kong_backend_bytes(), update_token_message(asset_id as nat, ledger))
                &&& rs@[0].call matches Call::UpdateToken(args) && args.token@ == kong_token_text(ledger)
                &&& addressed(rs@[1], step_of(ctx_after(ctx, 1)), ledger, metadata_message(asset_id as nat, ledger))
                &&& rs@[1].call == Call::Metadata
            }),
            final(self).context@ == ctx_after(old(self).context@, 2),
            *final(self) == (Flow { context: final(self).context, ..*old(self) }),
    {
        let ghost c0 = self.context@;
        let (asset_0, asset_1) = adaptor.assets();
        let ledger = if asset_id == 0 {
            asset_0.ledger_canister_id()
        } else {
            asset_1.ledger_canister_id()
        };
        let r0 = request(
            &mut self.context,
            kong_backend_canister_id(),
            Call::UpdateToken(update_token_request(&ledger)),
            update_token_text(asset_id as u64, &ledger),
        );
        let r1 = request(&mut self.context, ledger, Call::Metadata, metadata_text(asset_id as u64, &ledger));
        proof {
            lemma_ctx_after_add(c0, 1, 1);
        }
        let mut rs: Vec<CallRequest> = Vec::new();
        rs.push(r0);
        rs.push(r1);
        rs
    }

    fn user_balances_batch(&mut self, adaptor: &KongSwapAdaptor) -> (rs: Vec<CallRequest>)
        ensures
            rs@.len() == 1,
            addressed(rs@[0], step_of(old(self).context@), kong_backend_bytes(), "Calling KongSwapBackend.user_balances to get LP balances."@),
            rs@[0].call matches Call::UserBalances(args) && args.principal_id@ == principal_text(adaptor@.id),
            final(self).context@ == ctx_after(old(self).context@, 1),
            *final(self) == (Flow { context: final(self).context, ..*old(self) }),
    {
        let args = user_balances_request(&adaptor.id());
        single(
            request(
                &mut self.context,
                kong_backend_canister_id(),
                Call::UserBalances(args),
                fixed_text("Calling KongSwapBackend.user_balances to get LP balances."),
            ),
        )
    }
}

proof fn lemma_ctx_after_op(c: (Operation, Option<usize>), n: nat)
    ensures
        ctx_after(c, n).0 == c.0,
    decreases n,
{
    if n > 0 {
        lemma_ctx_after_op(c, (n - 1) as nat);
    }
}

impl Flow {
    /// Starts returning what the adaptor holds: first its balances.
    fn start_return(&mut self, adaptor: &KongSwapAdaptor) -> (action: Action)
        requires
            adaptor@.balances is Some,
        ensures
            action matches Action::Perform(rs) && balances_batch(rs@, old(self).context@, adaptor@)
                && final(self).context@ == ctx_after(old(self).context@, rs@.len()),
            *final(self) == (Flow { context: final(self).context, stage: Stage::ReturnBalances, ..*old(self) }),
    {
        self.stage = Stage::ReturnBalances;
        Action::Perform(self.balances_batch(adaptor))
    }

    /// After the attempt to create the pool, which failed with `failure` if it
    /// did: a top-up when the pool exists already, else the balances after.
    fn after_add_pool(&mut self, adaptor: &KongSwapAdaptor, failure: Option<Error>) -> (action: Action)
        requires
            adaptor@.balances is Some,
            old(self).allowances is Some,
        ensures
            final(self).stage == after_pool(held(adaptor@), failure),
            *final(self) == (Flow {
                context: final(self).context,
                stage: final(self).stage,
                dex_result: final(self).dex_result,
                ..*old(self)
            }),
            failure is Some ==> (failure matches Some(e) && (!pool_exists_error(held(adaptor@), e) ==> (
                final(self).dex_result matches Some(Err(es)) && es@ == seq![e]))),
            !(failure is Some && !pool_exists_error(held(adaptor@), failure->Some_0)) ==> final(self).dex_result
                == old(self).dex_result,
            action matches Action::Perform(rs) && final(self).context@ == ctx_after(old(self).context@, rs@.len())
                && issues(rs@, *old(self), *final(self), adaptor@, seq![], 0),
    {
        let (a0, a1) = match self.allowances {
            Some(p) => p,
            None => {
                assert(false);
                return Action::Finish(Ok(()));
            },
        };
        let result = match failure {
            Some(e) => Err(e),
            None => Ok(()),
        };
        if adaptor.should_top_up(&result) {
            self.stage = Stage::AddLiquidityAmounts;
            let args = add_liquidity_amounts_request(&a0, &a1);
            let text = amounts_text(&args.token_0, &args.amount, &args.token_1);
            Action::Perform(
                single(
                    request(
                        &mut self.context,
                        kong_backend_canister_id(),
                        Call::AddLiquidityAmounts(args),
                        text,
                    ),
                ),
            )
        } else {
            if let Err(e) = result {
                let mut es: Vec<Error> = Vec::new();
                es.push(e);
                self.dex_result = Some(Err(es));
            }
            self.stage = Stage::BalancesAfterDeposit;
            Action::Perform(self.balances_batch(adaptor))
        }
    }

    fn claim_batch(&mut self, adaptor: &KongSwapAdaptor, k: usize) -> (rs: Vec<CallRequest>)
        requires
            adaptor@.balances is Some,
            k < old(self).claims@.len(),
        ensures
            ({
                let claim = old(self).claims@[k as int];
                let ctx = old(self).context@;
                &&& rs@.len() == 3
                &&& addressed(rs@[0], step_of(ctx), kong_backend_bytes(), claim_message(claim.1@, claim.0))
                &&& rs@[0].call == Call::Claim(claim.0)
                &&& balances_batch(rs@.drop_first(), ctx_after(ctx, 1), adaptor@)
            }),
            final(self).context@ == ctx_after(old(self).context@, 3),
            *final(self) == (Flow { context: final(self).context, ..*old(self) }),
    {
        let ghost c0 = self.context@;
        let claim_id = self.claims[k].0;
        let text = claim_text(&self.claims[k].1, claim_id);
        let r = request(&mut self.context, kong_backend_canister_id(), Call::Claim(claim_id), text);
        let rest = self.balances_batch(adaptor);
        proof {
            lemma_ctx_after_add(c0, 1, 2);
        }
        let ghost tail = rest@;
        let mut rs: Vec<CallRequest> = Vec::new();
        rs.push(r);
        let mut rest = rest;
        rs.append(&mut rest);
        assert(rs@.drop_first() =~= tail);
        rs
    }
}

/// Whether the calls are of the kinds that the stage waits for replies to.
pub open spec fn calls_fit(g: Flow, reqs: Seq<CallRequest>) -> bool {
    match g.stage {
        Stage::Approve(_) => reqs.len() == 1 && reqs[0].call is Approve,
        Stage::AddToken(_) => reqs.len() == 1 && reqs[0].call is AddToken,
        Stage::Metadata(_) => reqs.len() == 2 && reqs[0].call is UpdateToken && reqs[1].call is Metadata,
        Stage::AddPool => reqs.len() == 1 && reqs[0].call is AddPool,
        Stage::AddLiquidityAmounts => reqs.len() == 1 && reqs[0].call is AddLiquidityAmounts,
        Stage::AddLiquidity => reqs.len() == 1 && reqs[0].call is AddLiquidity,
        Stage::WithdrawLpBalance | Stage::RefreshLpBalance => reqs.len() == 1 && reqs[0].call is UserBalances,
        Stage::RemoveLiquidity => reqs.len() == 1 && reqs[0].call is RemoveLiquidity,
        Stage::Claims => reqs.len() == 1 && reqs[0].call is Claims,
        Stage::Claim(_) => reqs.len() == 3 && reqs[0].call is Claim && reqs[1].call is BalanceOf
            && reqs[2].call is BalanceOf,
        Stage::RemoveLiquidityAmounts => reqs.len() == 1 && reqs[0].call is RemoveLiquidityAmounts,
        Stage::ReturnTransfers => reqs.len() <= 2 && forall|i: int|
            0 <= i < reqs.len() ==> #[trigger] reqs[i].call is Transfer,
        Stage::ReturnRefresh | Stage::Done => false,
        _ => reqs.len() == 2 && reqs[0].call is BalanceOf && reqs[1].call is BalanceOf,
    }
}

/// A withdrawal removes all the liquidity it found: when KongSwap reports a
/// positive balance of the adaptor's LP token, and the ledger balances before
/// the removal come back, the one call then made removes exactly that many LP
/// tokens, of the adaptor's two tokens.
pub proof fn lemma_withdrawal_removes_the_whole_lp_balance(
    f: Flow,
    g: Flow,
    h: Flow,
    a: AdaptorView,
    c: AdaptorView,
    d: AdaptorView,
    lp: Vec<(String, Result<NatValue, String>)>,
    balances: Seq<Reply>,
    now: u64,
    first: Action,
    second: Action,
)
    requires
        a.balances is Some,
        f.wf(),
        f.stage == Stage::WithdrawLpBalance,
        resumed(f, g, a, c, seq![Reply::UserBalances(Ok(lp))], now, first),
        lp_balance_found(lp_token_text(held(a)), lp@),
        lp_balance_value(lp_token_text(held(a)), lp@) > 0,
        balances.len() == 2,
        balance_fits(balances[0]),
        balance_fits(balances[1]),
        resumed(g, h, c, d, balances, now, second),
    ensures
        second matches Action::Perform(reqs) && reqs@.len() == 1 && (reqs@[0].call matches Call::RemoveLiquidity(
            args,
        ) && args.remove_lp_token_amount.value() == lp_balance_value(lp_token_text(held(a)), lp@)
            && args.token_0@ == symbol_text(held(a).asset_0@.symbol) && args.token_1@ == symbol_text(
            held(a).asset_1@.symbol,
        )),
{
    let rs = seq![Reply::UserBalances(Ok(lp))];
    assert(rs[0] == Reply::UserBalances(Ok(lp)));
    assert(g.stage == Stage::BalancesBeforeRemoval);
    assert(h.stage == Stage::RemoveLiquidity);
    assert(g.lp_amount.value() == lp_reply_value(held(a), rs[0]));
    assert(h.lp_amount == g.lp_amount);
}

/// A top-up adds what KongSwap's estimate says of token 1: after the estimate
/// `q`, the one call made adds the estimate's `amount_1` of token 1, with the
/// deposit's amount of token 0 (its allowance less the fees of its ledger
/// transactions).
pub proof fn lemma_top_up_adds_the_estimated_amount_1(
    f: Flow,
    g: Flow,
    a: AdaptorView,
    c: AdaptorView,
    q: AddLiquidityAmountsReply,
    now: u64,
    action: Action,
)
    requires
        a.balances is Some,
        f.wf(),
        f.stage == Stage::AddLiquidityAmounts,
        resumed(f, g, a, c, seq![Reply::AddLiquidityAmounts(Ok(q))], now, action),
    ensures
        action matches Action::Perform(reqs) && reqs@.len() == 1 && (reqs@[0].call matches Call::AddLiquidity(
            args,
        ) && args.amount_1.value() == q.amount_1.value() && (f.allowances matches Some((a0, a1))
            && args.amount_0.value() == deposit_amount_of(a0.amount_decimals, a0.asset@.fee))),
{
    let rs = seq![Reply::AddLiquidityAmounts(Ok(q))];
    assert(rs[0] == Reply::AddLiquidityAmounts(Ok(q)));
    assert(g.stage == Stage::AddLiquidity);
}

/// A metadata refresh takes each ledger's metadata into its own asset: when
/// the reply of asset `i`'s ledger (0 or 1) gives a valid symbol and a fee
/// that fits a `u64`, asset `i` then has that symbol and fee and keeps its
/// ledger, and the other asset stays as it was.
pub proof fn lemma_metadata_refreshes_its_own_asset(
    f: Flow,
    g: Flow,
    a: AdaptorView,
    c: AdaptorView,
    update: Reply,
    md: Vec<(String, MetadataValue)>,
    symbol: String,
    fee: NatValue,
    now: u64,
    action: Action,
)
    requires
        a.balances is Some,
        f.wf(),
        f.stage is Metadata,
        resumed(f, g, a, c, seq![update, Reply::Metadata(Ok(md))], now, action),
        metadata_value(md@, "icrc1:symbol"@) == Some(MetadataValue::Text(symbol)),
        crate::symbol::symbol_check(crate::validation::utf8(symbol@)) is Ok,
        metadata_value(md@, "icrc1:fee"@) == Some(MetadataValue::Nat(fee)),
        fee.value() < digit_base(),
    ensures
        c.balances is Some,
        ({
            let i = f.stage->Metadata_0;
            let before = held(a);
            let after = held(c);
            let (old_i, new_i, old_o, new_o) = if i == 0 {
                (before.asset_0, after.asset_0, before.asset_1, after.asset_1)
            } else {
                (before.asset_1, after.asset_1, before.asset_0, after.asset_0)
            };
            &&& new_i@.symbol == crate::symbol::symbol_check(crate::validation::utf8(symbol@))->Ok_0
            &&& new_i@.fee == fee.value()
            &&& new_i@.ledger == old_i@.ledger
            &&& new_o == old_o
        }),
{
    let rs = seq![update, Reply::Metadata(Ok(md))];
    assert(rs[1] == Reply::Metadata(Ok(md)));
    let i = f.stage->Metadata_0;
    assert(i < 2);
    if let Action::Finish(out) = action {
        assert(g.stage == Stage::Done);
        assert(false);
    }
}

/// The replies that answer, one for one, the calls that an operation asks
/// for are what it then waits for.
pub proof fn lemma_answers_are_expected(g: Flow, reqs: Seq<CallRequest>, replies: Seq<Reply>)
    requires
        calls_fit(g, reqs),
        answer_all(reqs, replies),
        !(g.stage is BalancesAfterRemoval && g.removal_overflows && balance_fits(replies[0])
            && balance_fits(replies[1])),
    ensures
        g.expects(replies),
{
    assert(forall|i: int| 0 <= i < reqs.len() ==> answers(#[trigger] reqs[i].call, replies[i]));
    if reqs.len() > 0 {
        assert(answers(reqs[0].call, replies[0]));
    }
    if reqs.len() > 1 {
        assert(answers(reqs[1].call, replies[1]));
    }
    if reqs.len() > 2 {
        assert(answers(reqs[2].call, replies[2]));
    }
    if g.stage is ReturnTransfers {
        assert forall|i: int| 0 <= i < replies.len() implies #[trigger] replies[i] is Transfer by {
            assert(answers(reqs[i].call, replies[i]));
        }
    }
}

proof fn lemma_issues_fit(reqs: Seq<CallRequest>, f: Flow, g: Flow, a: AdaptorView, rs: Seq<Reply>, now: u64)
    requires
        issues(reqs, f, g, a, rs, now),
    ensures
        calls_fit(g, reqs),
{
    if g.stage is ReturnTransfers {
        let b = held(a);
        let x0 = returned(balance_amount(rs[0]), b.asset_0@.fee);
        let x1 = returned(balance_amount(rs[1]), b.asset_1@.fee);
        let n0: int = if x0 > 0 { 1 } else { 0 };
        assert forall|i: int| 0 <= i < reqs.len() implies #[trigger] reqs[i].call is Transfer by {
            if x0 > 0 && i == 0 {
                assert(transfer_call(reqs[0], step_of(f.context@), b.asset_0, x0, g.return_accounts.0, now));
            } else {
                assert(i == n0);
                assert(x1 > 0);
            }
        }
    }
    if g.stage is Claim {
        assert(reqs.drop_first()[0] == reqs[1]);
        assert(reqs.drop_first()[1] == reqs[2]);
    }
}

impl Flow {
    /// The operation is over, having returned what the adaptor holds with the
    /// errors `ret`, if any. A deposit ends with the errors of its work with the
    /// DEX, then those of the return; a deposit or withdrawal that succeeds, and
    /// every refresh or reward issuance, marks its last audit-trail step final.
    fn return_done(&mut self, adaptor: &mut KongSwapAdaptor, ret: Result<(), Vec<Error>>) -> (action:
        Action)
        requires
            old(self).wf(),
            old(self).context@.0 == Operation::Deposit && return_stage(old(self).stage) ==> old(self).dex_result is Some,
            ret matches Err(es) ==> es@.len() > 0,
        ensures
            final(self).stage == Stage::Done,
            final(self).context == old(self).context,
            final(self).allowances == old(self).allowances,
            final(self).return_accounts == old(self).return_accounts,
            final(self).lp_amount == old(self).lp_amount,
            final(self).claims@ == old(self).claims@,
            final(self).claim_errors@ == old(self).claim_errors@,
            final(self).removal_overflows == old(self).removal_overflows,
            final(self).dex_result is None || final(self).dex_result == old(self).dex_result,
            action matches Action::Finish(out) && ends_after_return(
                *old(self),
                out,
                match ret {
                    Ok(_) => Seq::empty(),
                    Err(es) => es@,
                },
            ) && final(adaptor)@ == if finalized_on(old(self).context@.0, out) {
                AdaptorView {
                    audit_trail: finalize_trail(old(adaptor)@.audit_trail, old(self).context@.0),
                    ..old(adaptor)@
                }
            } else {
                old(adaptor)@
            },
    {
        let ghost f = *self;
        self.stage = Stage::Done;
        let op = self.context.operation();
        let deposit = match op {
            Operation::Deposit => true,
            _ => false,
        };
        let outcome = if deposit {
            let dex = match self.dex_result.take() {
                Some(r) => r,
                None => Ok(()),
            };
            combine_step_results(dex, ret)
        } else {
            ret
        };
        let finalize = match op {
            Operation::Deposit | Operation::Withdraw => outcome.is_ok(),
            _ => true,
        };
        if finalize {
            adaptor.finalize_audit_trail_transaction(self.context);
        }
        Action::Finish(outcome)
    }

    /// A refresh is over with `out`; it marks its last audit-trail step final.
    fn refresh_done(&mut self, adaptor: &mut KongSwapAdaptor, out: Result<(), Vec<Error>>) -> (action: Action)
        ensures
            *final(self) == (Flow { stage: Stage::Done, ..*old(self) }),
            action == Action::Finish(out),
            final(adaptor)@ == (AdaptorView {
                audit_trail: finalize_trail(old(adaptor)@.audit_trail, old(self).context@.0),
                ..old(adaptor)@
            }),
    {
        self.stage = Stage::Done;
        adaptor.finalize_audit_trail_transaction(self.context);
        Action::Finish(out)
    }
}

impl Flow {
    /// Goes on with the replies of the calls that the last step asked for.
    pub fn resume(&mut self, adaptor: &mut KongSwapAdaptor, replies: Vec<Reply>, now_ns: u64) -> (action:
        Action)
        requires
            old(adaptor)@.balances is Some,
            old(self).wf(),
            old(self).expects(replies@),
        ensures
            resumed(*old(self), *final(self), old(adaptor)@, final(adaptor)@, replies@, now_ns, action),
            action matches Action::Perform(reqs) ==> calls_fit(*final(self), reqs@),
    {
        let ghost f = *self;
        let ghost rs = replies@;
        let action = self.resume_stage(adaptor, replies, now_ns);
        proof {
            if let Action::Perform(reqs) = &action {
                lemma_issues_fit(reqs@, f, *self, adaptor@, rs, now_ns);
            }
        }
        action
    }

    /// Whether the replies would have the withdrawal take, as `u64`, amounts
    /// of its removal that do not fit one: the balances after the removal are
    /// known and the removal overflows. The withdrawal cannot go on then.
    pub fn removal_overflows_on(&self, replies: &Vec<Reply>) -> (res: bool)
        ensures
            res == (self.stage is BalancesAfterRemoval && self.removal_overflows && replies@.len() == 2
                && balance_fits(replies@[0]) && balance_fits(replies@[1])),
    {
        let at_stage = match self.stage {
            Stage::BalancesAfterRemoval => true,
            _ => false,
        };
        if !at_stage || !self.removal_overflows || replies.len() != 2 {
            return false;
        }
        reply_balance_fits(&replies[0]) && reply_balance_fits(&replies[1])
    }

    fn resume_stage(&mut self, adaptor: &mut KongSwapAdaptor, replies: Vec<Reply>, now_ns: u64) -> (action:
        Action)
        requires
            old(adaptor)@.balances is Some,
            old(self).wf(),
            old(self).expects(replies@),
        ensures
            resumed(*old(self), *final(self), old(adaptor)@, final(adaptor)@, replies@, now_ns, action),
    {
        match self.stage {
            Stage::Approve(i) => self.on_approve(adaptor, i, replies, now_ns),
            Stage::BalancesBeforeDeposit => self.on_balances_before_deposit(adaptor, replies, now_ns),
            Stage::AddToken(i) => self.on_add_token(adaptor, i, replies, now_ns),
            Stage::Metadata(i) => self.on_metadata(adaptor, i, replies, now_ns),
            Stage::AddPool => self.on_add_pool(adaptor, replies, now_ns),
            Stage::AddLiquidityAmounts => self.on_add_liquidity_amounts(adaptor, replies, now_ns),
            Stage::AddLiquidity => self.on_add_liquidity(adaptor, replies, now_ns),
            Stage::BalancesAfterDeposit => self.on_balances_after_deposit(adaptor, replies, now_ns),
            Stage::WithdrawLpBalance => self.on_withdraw_lp_balance(adaptor, replies, now_ns),
            Stage::BalancesBeforeRemoval => self.on_balances_before_removal(adaptor, replies, now_ns),
            Stage::RemoveLiquidity => self.on_remove_liquidity(adaptor, replies, now_ns),
            Stage::BalancesAfterRemoval => self.on_balances_after_removal(adaptor, replies, now_ns),
            Stage::BalancesBeforeClaims => self.on_balances_before_claims(adaptor, replies, now_ns),
            Stage::Claims => self.on_claims(adaptor, replies, now_ns),
            Stage::Claim(k) => self.on_claim(adaptor, k, replies, now_ns),
            Stage::RefreshLpBalance => self.on_refresh_lp_balance(adaptor, replies, now_ns),
            Stage::RemoveLiquidityAmounts => self.on_remove_liquidity_amounts(adaptor, replies, now_ns),
            Stage::ReturnBalances => self.on_return_balances(adaptor, replies, now_ns),
            Stage::ReturnTransfers => self.on_return_transfers(adaptor, replies, now_ns),
            Stage::ReturnRefresh => self.on_return_refresh(adaptor, replies, now_ns),
            Stage::Done => {
                assert(false);
                Action::Finish(Ok(()))
            },
        }
    }

    fn on_approve(&mut self, adaptor: &mut KongSwapAdaptor, i: usize, replies: Vec<Reply>, now_ns: u64) -> (action: Action)
        requires
            old(adaptor)@.balances is Some,
            old(self).wf(),
            old(self).stage == Stage::Approve(i),
            old(self).expects(replies@),
        ensures
            resumed(*old(self), *final(self), old(adaptor)@, final(adaptor)@, replies@, now_ns, action),
    {
        let ghost f = *self;
        let ghost a = adaptor@;
        let ghost rs = replies@;
        proof {
            lemma_ctx_after_op(f.context@, 1);
            lemma_ctx_after_op(f.context@, 2);
            lemma_ctx_after_op(f.context@, 3);
        }
        {
            let (a0, a1) = match self.allowances {
                Some(p) => p,
                None => {
                    assert(false);
                    return Action::Finish(Ok(()));
                },
            };
            match one_reply(replies) {
                Reply::Approve(Err(e)) => {
                    self.dex_result = Some(Err(vec_of_errors(e)));
                    self.start_return(adaptor)
                },
                _ => {
                    if i == 0 {
                        self.stage = Stage::Approve(1);
                        Action::Perform(self.approve_batch(&a1))
                    } else {
                        self.stage = Stage::BalancesBeforeDeposit;
                        Action::Perform(self.balances_batch(adaptor))
                    }
                },
            }
        }
    }

    fn on_balances_before_deposit(&mut self, adaptor: &mut KongSwapAdaptor, replies: Vec<Reply>, now_ns: u64) -> (action: Action)
        requires
            old(adaptor)@.balances is Some,
            old(self).wf(),
            old(self).stage == Stage::BalancesBeforeDeposit,
            old(self).expects(replies@),
        ensures
            resumed(*old(self), *final(self), old(adaptor)@, final(adaptor)@, replies@, now_ns, action),
    {
        let ghost f = *self;
        let ghost a = adaptor@;
        let ghost rs = replies@;
        proof {
            lemma_ctx_after_op(f.context@, 1);
            lemma_ctx_after_op(f.context@, 2);
            lemma_ctx_after_op(f.context@, 3);
        }
        match two_balances(replies) {
            Err(es) => {
                self.dex_result = Some(Err(es));
                self.start_return(adaptor)
            },
            Ok(_) => {
                let ledger = match self.allowances {
                    Some((a0, _)) => a0.asset.ledger_canister_id(),
                    None => {
                        assert(false);
                        return Action::Finish(Ok(()));
                    },
                };
                self.stage = Stage::AddToken(0);
                Action::Perform(self.add_token_batch(&ledger))
            },
        }
    }

    fn on_add_token(&mut self, adaptor: &mut KongSwapAdaptor, i: usize, replies: Vec<Reply>, now_ns: u64) -> (action: Action)
        requires
            old(adaptor)@.balances is Some,
            old(self).wf(),
            old(self).stage == Stage::AddToken(i),
            old(self).expects(replies@),
        ensures
            resumed(*old(self), *final(self), old(adaptor)@, final(adaptor)@, replies@, now_ns, action),
    {
        let ghost f = *self;
        let ghost a = adaptor@;
        let ghost rs = replies@;
        proof {
            lemma_ctx_after_op(f.context@, 1);
            lemma_ctx_after_op(f.context@, 2);
            lemma_ctx_after_op(f.context@, 3);
        }
        {
            let (a0, a1) = match self.allowances {
                Some(p) => p,
                None => {
                    assert(false);
                    return Action::Finish(Ok(()));
                },
            };
            let ledger = if i == 0 {
                a0.asset.ledger_canister_id()
            } else {
                a1.asset.ledger_canister_id()
            };
            let token = add_token_request(&ledger).token;
            let result = match one_reply(replies) {
                Reply::AddToken(r) => r,
                _ => {
                    assert(false);
                    return Action::Finish(Ok(()));
                },
            };
            match add_token_outcome(&token, result) {
                Err(e) => self.after_add_pool(adaptor, Some(e)),
                Ok(()) => {
                    if i == 0 {
                        self.stage = Stage::AddToken(1);
                        Action::Perform(self.add_token_batch(&a1.asset.ledger_canister_id()))
                    } else {
                        self.stage = Stage::Metadata(0);
                        Action::Perform(self.metadata_batch(adaptor, 0))
                    }
                },
            }
        }
    }

    fn on_add_pool(&mut self, adaptor: &mut KongSwapAdaptor, replies: Vec<Reply>, now_ns: u64) -> (action: Action)
        requires
            old(adaptor)@.balances is Some,
            old(self).wf(),
            old(self).stage == Stage::AddPool,
            old(self).expects(replies@),
        ensures
            resumed(*old(self), *final(self), old(adaptor)@, final(adaptor)@, replies@, now_ns, action),
    {
        let ghost f = *self;
        let ghost a = adaptor@;
        let ghost rs = replies@;
        proof {
            lemma_ctx_after_op(f.context@, 1);
            lemma_ctx_after_op(f.context@, 2);
            lemma_ctx_after_op(f.context@, 3);
        }
        match one_reply(replies) {
            Reply::AddPool(Err(e)) => self.after_add_pool(adaptor, Some(e)),
            _ => self.after_add_pool(adaptor, None),
        }
    }

    fn on_add_liquidity_amounts(&mut self, adaptor: &mut KongSwapAdaptor, replies: Vec<Reply>, now_ns: u64) -> (action: Action)
        requires
            old(adaptor)@.balances is Some,
            old(self).wf(),
            old(self).stage == Stage::AddLiquidityAmounts,
            old(self).expects(replies@),
        ensures
            resumed(*old(self), *final(self), old(adaptor)@, final(adaptor)@, replies@, now_ns, action),
    {
        let ghost f = *self;
        let ghost a = adaptor@;
        let ghost rs = replies@;
        proof {
            lemma_ctx_after_op(f.context@, 1);
            lemma_ctx_after_op(f.context@, 2);
            lemma_ctx_after_op(f.context@, 3);
        }
        {
            let (a0, a1) = match self.allowances {
                Some(p) => p,
                None => {
                    assert(false);
                    return Action::Finish(Ok(()));
                },
            };
            match one_reply(replies) {
                Reply::AddLiquidityAmounts(Ok(amounts)) => {
                    let args = add_liquidity_request(&a0, &a1, &amounts.amount_1);
                    let text = add_liquidity_text(
                        &args.token_0,
                        &args.amount_0,
                        &args.token_1,
                        &args.amount_1,
                    );
                    self.stage = Stage::AddLiquidity;
                    Action::Perform(
                        single(
                            request(
                                &mut self.context,
                                kong_backend_canister_id(),
                                Call::AddLiquidity(args),
                                text,
                            ),
                        ),
                    )
                },
                Reply::AddLiquidityAmounts(Err(e)) => {
                    self.dex_result = Some(Err(vec_of_errors(e)));
                    self.start_return(adaptor)
                },
                _ => {
                    assert(false);
                    Action::Finish(Ok(()))
                },
            }
        }
    }

    fn on_add_liquidity(&mut self, adaptor: &mut KongSwapAdaptor, replies: Vec<Reply>, now_ns: u64) -> (action: Action)
        requires
            old(adaptor)@.balances is Some,
            old(self).wf(),
            old(self).stage == Stage::AddLiquidity,
            old(self).expects(replies@),
        ensures
            resumed(*old(self), *final(self), old(adaptor)@, final(adaptor)@, replies@, now_ns, action),
    {
        let ghost f = *self;
        let ghost a = adaptor@;
        let ghost rs = replies@;
        proof {
            lemma_ctx_after_op(f.context@, 1);
            lemma_ctx_after_op(f.context@, 2);
            lemma_ctx_after_op(f.context@, 3);
        }
        match one_reply(replies) {
            Reply::AddLiquidity(Err(e)) => {
                self.dex_result = Some(Err(vec_of_errors(e)));
                self.start_return(adaptor)
            },
            _ => {
                self.stage = Stage::BalancesAfterDeposit;
                Action::Perform(self.balances_batch(adaptor))
            },
        }
    }

    fn on_balances_after_deposit(&mut self, adaptor: &mut KongSwapAdaptor, replies: Vec<Reply>, now_ns: u64) -> (action: Action)
        requires
            old(adaptor)@.balances is Some,
            old(self).wf(),
            old(self).stage == Stage::BalancesAfterDeposit,
            old(self).expects(replies@),
        ensures
            resumed(*old(self), *final(self), old(adaptor)@, final(adaptor)@, replies@, now_ns, action),
    {
        let ghost f = *self;
        let ghost a = adaptor@;
        let ghost rs = replies@;
        proof {
            lemma_ctx_after_op(f.context@, 1);
            lemma_ctx_after_op(f.context@, 2);
            lemma_ctx_after_op(f.context@, 3);
        }
        {
            match two_balances(replies) {
                Err(es) => {
                    self.dex_result = Some(Err(es));
                },
                Ok(_) => {
                    let failed = match &self.dex_result {
                        Some(Err(_)) => true,
                        _ => false,
                    };
                    if !failed {
                        self.dex_result = Some(Ok(()));
                    }
                },
            }
            self.start_return(adaptor)
        }
    }

    fn on_withdraw_lp_balance(&mut self, adaptor: &mut KongSwapAdaptor, replies: Vec<Reply>, now_ns: u64) -> (action: Action)
        requires
            old(adaptor)@.balances is Some,
            old(self).wf(),
            old(self).stage == Stage::WithdrawLpBalance,
            old(self).expects(replies@),
        ensures
            resumed(*old(self), *final(self), old(adaptor)@, final(adaptor)@, replies@, now_ns, action),
    {
        let ghost f = *self;
        let ghost a = adaptor@;
        let ghost rs = replies@;
        proof {
            lemma_ctx_after_op(f.context@, 1);
            lemma_ctx_after_op(f.context@, 2);
            lemma_ctx_after_op(f.context@, 3);
        }
        {
            let lp = match one_reply(replies) {
                Reply::UserBalances(Ok(balances)) => select_lp_balance(&adaptor.lp_token(), balances),
                Reply::UserBalances(Err(e)) => Err(e),
                _ => {
                    assert(false);
                    return Action::Finish(Ok(()));
                },
            };
            match lp {
                Ok(amount) => {
                    if amount.is_zero() {
                        self.dex_result = Some(Ok(()));
                        self.stage = Stage::BalancesBeforeClaims;
                        Action::Perform(self.balances_batch(adaptor))
                    } else {
                        self.lp_amount = amount;
                        self.stage = Stage::BalancesBeforeRemoval;
                        Action::Perform(self.balances_batch(adaptor))
                    }
                },
                Err(e) => {
                    self.dex_result = Some(Err(vec_of_errors(e)));
                    self.stage = Stage::BalancesBeforeClaims;
                    Action::Perform(self.balances_batch(adaptor))
                },
            }
        }
    }

    fn on_balances_before_removal(&mut self, adaptor: &mut KongSwapAdaptor, replies: Vec<Reply>, now_ns: u64) -> (action: Action)
        requires
            old(adaptor)@.balances is Some,
            old(self).wf(),
            old(self).stage == Stage::BalancesBeforeRemoval,
            old(self).expects(replies@),
        ensures
            resumed(*old(self), *final(self), old(adaptor)@, final(adaptor)@, replies@, now_ns, action),
    {
        let ghost f = *self;
        let ghost a = adaptor@;
        let ghost rs = replies@;
        proof {
            lemma_ctx_after_op(f.context@, 1);
            lemma_ctx_after_op(f.context@, 2);
            lemma_ctx_after_op(f.context@, 3);
        }
        match two_balances(replies) {
            Err(es) => {
                self.dex_result = Some(Err(es));
                self.stage = Stage::BalancesBeforeClaims;
                Action::Perform(self.balances_batch(adaptor))
            },
            Ok(_) => {
                let args = adaptor.remove_liquidity_request(self.lp_amount.duplicate());
                self.stage = Stage::RemoveLiquidity;
                Action::Perform(
                    single(
                        request(
                            &mut self.context,
                            kong_backend_canister_id(),
                            Call::RemoveLiquidity(args),
                            fixed_text(
                                "Calling KongSwapBackend.remove_liquidity to withdraw all allocated tokens.",
                            ),
                        ),
                    ),
                )
            },
        }
    }

    fn on_remove_liquidity(&mut self, adaptor: &mut KongSwapAdaptor, replies: Vec<Reply>, now_ns: u64) -> (action: Action)
        requires
            old(adaptor)@.balances is Some,
            old(self).wf(),
            old(self).stage == Stage::RemoveLiquidity,
            old(self).expects(replies@),
        ensures
            resumed(*old(self), *final(self), old(adaptor)@, final(adaptor)@, replies@, now_ns, action),
    {
        let ghost f = *self;
        let ghost a = adaptor@;
        let ghost rs = replies@;
        proof {
            lemma_ctx_after_op(f.context@, 1);
            lemma_ctx_after_op(f.context@, 2);
            lemma_ctx_after_op(f.context@, 3);
        }
        {
            let clean = match one_reply(replies) {
                Reply::RemoveLiquidity(Ok(removal)) => {
                    if removal.claim_ids.len() == 0 {
                        self.removal_overflows = removal_overflows(&removal);
                        true
                    } else {
                        if let Err(es) = withdrawal_from_reply(&removal) {
                            self.dex_result = Some(Err(es));
                        }
                        false
                    }
                },
                Reply::RemoveLiquidity(Err(e)) => {
                    self.dex_result = Some(Err(vec_of_errors(e)));
                    false
                },
                _ => {
                    assert(false);
                    false
                },
            };
            if clean {
                self.stage = Stage::BalancesAfterRemoval;
            } else {
                self.stage = Stage::BalancesBeforeClaims;
            }
            Action::Perform(self.balances_batch(adaptor))
        }
    }

    fn on_balances_after_removal(&mut self, adaptor: &mut KongSwapAdaptor, replies: Vec<Reply>, now_ns: u64) -> (action: Action)
        requires
            old(adaptor)@.balances is Some,
            old(self).wf(),
            old(self).stage == Stage::BalancesAfterRemoval,
            old(self).expects(replies@),
        ensures
            resumed(*old(self), *final(self), old(adaptor)@, final(adaptor)@, replies@, now_ns, action),
    {
        let ghost f = *self;
        let ghost a = adaptor@;
        let ghost rs = replies@;
        proof {
            lemma_ctx_after_op(f.context@, 1);
            lemma_ctx_after_op(f.context@, 2);
            lemma_ctx_after_op(f.context@, 3);
        }
        {
            match two_balances(replies) {
                Err(es) => {
                    self.dex_result = Some(Err(es));
                },
                Ok(_) => {
                    self.dex_result = Some(Ok(()));
                },
            }
            self.stage = Stage::BalancesBeforeClaims;
            Action::Perform(self.balances_batch(adaptor))
        }
    }

    fn on_balances_before_claims(&mut self, adaptor: &mut KongSwapAdaptor, replies: Vec<Reply>, now_ns: u64) -> (action: Action)
        requires
            old(adaptor)@.balances is Some,
            old(self).wf(),
            old(self).stage == Stage::BalancesBeforeClaims,
            old(self).expects(replies@),
        ensures
            resumed(*old(self), *final(self), old(adaptor)@, final(adaptor)@, replies@, now_ns, action),
    {
        let ghost f = *self;
        let ghost a = adaptor@;
        let ghost rs = replies@;
        proof {
            lemma_ctx_after_op(f.context@, 1);
            lemma_ctx_after_op(f.context@, 2);
            lemma_ctx_after_op(f.context@, 3);
        }
        match two_balances(replies) {
            Err(es) => {
                let ghost d = errs_of(self.dex_result);
                self.dex_result = with_more_errors(&self.dex_result, &es);
                proof {
                    let x = self.dex_result->Some_0->Err_0@;
                    assert(x.take(d.len() as int) =~= d);
                    assert(x.skip(d.len() as int) =~= es@);
                }
                self.start_return(adaptor)
            },
            Ok(_) => {
                let principal_id = adaptor.id().to_text();
                self.stage = Stage::Claims;
                Action::Perform(
                    single(
                        request(
                            &mut self.context,
                            kong_backend_canister_id(),
                            Call::Claims(principal_id),
                            fixed_text(
                                "Calling KongSwapBackend.claims to check if a retry withdrawal is needed.",
                            ),
                        ),
                    ),
                )
            },
        }
    }

    fn on_claims(&mut self, adaptor: &mut KongSwapAdaptor, replies: Vec<Reply>, now_ns: u64) -> (action: Action)
        requires
            old(adaptor)@.balances is Some,
            old(self).wf(),
            old(self).stage == Stage::Claims,
            old(self).expects(replies@),
        ensures
            resumed(*old(self), *final(self), old(adaptor)@, final(adaptor)@, replies@, now_ns, action),
    {
        let ghost f = *self;
        let ghost a = adaptor@;
        let ghost rs = replies@;
        proof {
            lemma_ctx_after_op(f.context@, 1);
            lemma_ctx_after_op(f.context@, 2);
            lemma_ctx_after_op(f.context@, 3);
        }
        match one_reply(replies) {
            Reply::Claims(Ok(claims)) => {
                if claims.len() == 0 {
                    let none: Vec<Error> = Vec::new();
                    self.dex_result = with_more_errors(&self.dex_result, &none);
                    proof {
                        assert(errs_of(f.dex_result) + none@ =~= errs_of(f.dex_result));
                    }
                    self.start_return(adaptor)
                } else {
                    self.claims = claims;
                    self.claim_errors = Vec::new();
                    self.stage = Stage::Claim(0);
                    Action::Perform(self.claim_batch(adaptor, 0))
                }
            },
            Reply::Claims(Err(e)) => {
                let failure = vec_of_errors(e);
                self.dex_result = with_more_errors(&self.dex_result, &failure);
                proof {
                    assert(errs_of(f.dex_result) + failure@ =~= errs_of(f.dex_result).push(e));
                }
                self.start_return(adaptor)
            },
            _ => {
                assert(false);
                self.start_return(adaptor)
            },
        }
    }

    fn on_claim(&mut self, adaptor: &mut KongSwapAdaptor, k: usize, replies: Vec<Reply>, now_ns: u64) -> (action: Action)
        requires
            old(adaptor)@.balances is Some,
            old(self).wf(),
            old(self).stage == Stage::Claim(k),
            old(self).expects(replies@),
        ensures
            resumed(*old(self), *final(self), old(adaptor)@, final(adaptor)@, replies@, now_ns, action),
    {
        let ghost f = *self;
        let ghost a = adaptor@;
        let ghost rs = replies@;
        proof {
            lemma_ctx_after_op(f.context@, 1);
            lemma_ctx_after_op(f.context@, 2);
            lemma_ctx_after_op(f.context@, 3);
        }
        {
            let count = self.claims.len();
            assert(k < count);
            let next: usize = k + 1;
            let claim_id = self.claims[k].0;
            let mut replies = replies;
            let claim = replies.remove(0);
            assert(claim == rs[0]);
            assert(replies@ =~= rs.drop_first());
            let response = match claim {
                Reply::Claim(r) => r,
                _ => {
                    assert(false);
                    return Action::Finish(Ok(()));
                },
            };
            match two_balances(replies) {
                Err(es) => {
                    let ghost d = errs_of(self.dex_result);
                    self.dex_result = with_more_errors(&self.dex_result, &es);
                    proof {
                        let x = self.dex_result->Some_0->Err_0@;
                        assert(x.take(d.len() as int) =~= d);
                        assert(x.skip(d.len() as int) =~= es@);
                    }
                    self.start_return(adaptor)
                },
                Ok(_) => {
                    if let Err(e) = adaptor.claim_outcome(claim_id, response) {
                        self.claim_errors.push(e);
                        proof {
                            assert(self.claim_errors@.drop_last() =~= f.claim_errors@);
                        }
                    }
                    if next < count {
                        self.stage = Stage::Claim(next);
                        Action::Perform(self.claim_batch(adaptor, next))
                    } else {
                        self.dex_result = with_more_errors(&self.dex_result, &self.claim_errors);
                        self.start_return(adaptor)
                    }
                },
            }
        }
    }

    fn on_refresh_lp_balance(&mut self, adaptor: &mut KongSwapAdaptor, replies: Vec<Reply>, now_ns: u64) -> (action: Action)
        requires
            old(adaptor)@.balances is Some,
            old(self).wf(),
            old(self).stage == Stage::RefreshLpBalance,
            old(self).expects(replies@),
        ensures
            resumed(*old(self), *final(self), old(adaptor)@, final(adaptor)@, replies@, now_ns, action),
    {
        let ghost f = *self;
        let ghost a = adaptor@;
        let ghost rs = replies@;
        proof {
            lemma_ctx_after_op(f.context@, 1);
            lemma_ctx_after_op(f.context@, 2);
            lemma_ctx_after_op(f.context@, 3);
        }
        {
            let lp = match one_reply(replies) {
                Reply::UserBalances(Ok(balances)) => select_lp_balance(&adaptor.lp_token(), balances),
                Reply::UserBalances(Err(e)) => Err(e),
                _ => {
                    assert(false);
                    return Action::Finish(Ok(()));
                },
            };
            match lp {
                Err(e) => self.refresh_done(adaptor, Err(vec_of_errors(e))),
                Ok(amount) => {
                    let args = adaptor.remove_liquidity_amounts_request(amount);
                    let text = remove_amounts_text(&args.remove_lp_token_amount);
                    self.stage = Stage::RemoveLiquidityAmounts;
                    Action::Perform(
                        single(
                            request(
                                &mut self.context,
                                kong_backend_canister_id(),
                                Call::RemoveLiquidityAmounts(args),
                                text,
                            ),
                        ),
                    )
                },
            }
        }
    }

    fn on_remove_liquidity_amounts(&mut self, adaptor: &mut KongSwapAdaptor, replies: Vec<Reply>, now_ns: u64) -> (action: Action)
        requires
            old(adaptor)@.balances is Some,
            old(self).wf(),
            old(self).stage == Stage::RemoveLiquidityAmounts,
            old(self).expects(replies@),
        ensures
            resumed(*old(self), *final(self), old(adaptor)@, final(adaptor)@, replies@, now_ns, action),
    {
        let ghost f = *self;
        let ghost a = adaptor@;
        let ghost rs = replies@;
        proof {
            lemma_ctx_after_op(f.context@, 1);
            lemma_ctx_after_op(f.context@, 2);
            lemma_ctx_after_op(f.context@, 3);
        }
        {
            let amounts = match one_reply(replies) {
                Reply::RemoveLiquidityAmounts(Ok(r)) => remove_liquidity_amounts_balances(&r),
                Reply::RemoveLiquidityAmounts(Err(e)) => Err(e),
                _ => {
                    assert(false);
                    return Action::Finish(Ok(()));
                },
            };
            match amounts {
                Err(e) => self.refresh_done(adaptor, Err(vec_of_errors(e))),
                Ok((b0, b1)) => {
                    adaptor.set_balances(b0, b1, now_ns);
                    self.refresh_done(adaptor, Ok(()))
                },
            }
        }
    }

    fn on_return_transfers(&mut self, adaptor: &mut KongSwapAdaptor, replies: Vec<Reply>, now_ns: u64) -> (action: Action)
        requires
            old(adaptor)@.balances is Some,
            old(self).wf(),
            old(self).stage == Stage::ReturnTransfers,
            old(self).expects(replies@),
        ensures
            resumed(*old(self), *final(self), old(adaptor)@, final(adaptor)@, replies@, now_ns, action),
    {
        let ghost f = *self;
        let ghost a = adaptor@;
        let ghost rs = replies@;
        proof {
            lemma_ctx_after_op(f.context@, 1);
            lemma_ctx_after_op(f.context@, 2);
            lemma_ctx_after_op(f.context@, 3);
        }
        {
            let mut errors: Vec<Error> = Vec::new();
            let mut i: usize = 0;
            while i < replies.len()
                invariant
                    i <= replies@.len(),
                    errors@ == transfer_errors(replies@.take(i as int)),
                decreases replies@.len() - i,
            {
                assert(replies@.take(i + 1).drop_last() =~= replies@.take(i as int));
                if let Reply::Transfer(Err(e)) = &replies[i] {
                    errors.push(e.duplicate());
                }
                i = i + 1;
            }
            assert(replies@.take(i as int) =~= replies@);
            if errors.len() > 0 {
                self.return_done(adaptor, Err(errors))
            } else {
                self.stage = Stage::ReturnRefresh;
                Action::RefreshBalances
            }
        }
    }

    fn on_return_refresh(&mut self, adaptor: &mut KongSwapAdaptor, replies: Vec<Reply>, now_ns: u64) -> (action: Action)
        requires
            old(adaptor)@.balances is Some,
            old(self).wf(),
            old(self).stage == Stage::ReturnRefresh,
            old(self).expects(replies@),
        ensures
            resumed(*old(self), *final(self), old(adaptor)@, final(adaptor)@, replies@, now_ns, action),
    {
        let ghost f = *self;
        let ghost a = adaptor@;
        let ghost rs = replies@;
        proof {
            lemma_ctx_after_op(f.context@, 1);
            lemma_ctx_after_op(f.context@, 2);
            lemma_ctx_after_op(f.context@, 3);
        }
        self.return_done(adaptor, Ok(()))
    }

    fn on_metadata(&mut self, adaptor: &mut KongSwapAdaptor, i: usize, replies: Vec<Reply>, now_ns: u64) -> (action:
        Action)
        requires
            old(adaptor)@.balances is Some,
            old(self).wf(),
            old(self).stage == Stage::Metadata(i),
            old(self).expects(replies@),
        ensures
            resumed(*old(self), *final(self), old(adaptor)@, final(adaptor)@, replies@, now_ns, action),
    {
        let ghost f = *self;
        let ghost a = adaptor@;
        let ghost rs = replies@;
        proof {
            lemma_ctx_after_op(f.context@, 1);
            lemma_ctx_after_op(f.context@, 2);
        }
        let deposit = match self.context.operation() {
            Operation::Deposit => true,
            _ => false,
        };
        let metadata = match last_reply(replies) {
            Reply::Metadata(r) => r,
            _ => {
                assert(false);
                return Action::Finish(Ok(()));
            },
        };
        let (asset_0, asset_1) = adaptor.assets();
        let asset = if i == 0 {
            asset_0
        } else {
            asset_1
        };
        let refreshed = match metadata {
            Err(e) => Err(e),
            Ok(reply) => apply_ledger_metadata(asset, &reply),
        };
        match refreshed {
            Ok(v) => {
                adaptor.refresh_asset(i, v);
                if i == 0 {
                    self.stage = Stage::Metadata(1);
                    return Action::Perform(self.metadata_batch(adaptor, 1));
                }
                if deposit {
                    let (a0, a1) = match self.allowances {
                        Some(p) => p,
                        None => {
                            assert(false);
                            return Action::Finish(Ok(()));
                        },
                    };
                    self.stage = Stage::AddPool;
                    Action::Perform(
                        single(
                            request(
                                &mut self.context,
                                kong_backend_canister_id(),
                                Call::AddPool(add_pool_request(&a0, &a1)),
                                fixed_text("Calling KongSwapBackend.add_pool to add a new pool."),
                            ),
                        ),
                    )
                } else {
                    self.stage = Stage::RefreshLpBalance;
                    Action::Perform(self.user_balances_batch(adaptor))
                }
            },
            Err(e) => {
                if deposit {
                    self.after_add_pool(adaptor, Some(e))
                } else {
                    self.stage = Stage::RefreshLpBalance;
                    Action::Perform(self.user_balances_batch(adaptor))
                }
            },
        }
    }

    /// With the balances known, transfers what the adaptor holds, less the
    /// transfer fees, to the return accounts (nothing for what would be
    /// empty); with nothing to transfer, goes on to the refresh.
    fn on_return_balances(&mut self, adaptor: &mut KongSwapAdaptor, replies: Vec<Reply>, now_ns: u64) -> (action:
        Action)
        requires
            old(adaptor)@.balances is Some,
            old(self).wf(),
            old(self).stage == Stage::ReturnBalances,
            old(self).expects(replies@),
        ensures
            resumed(*old(self), *final(self), old(adaptor)@, final(adaptor)@, replies@, now_ns, action),
    {
        let ghost f = *self;
        let ghost a = adaptor@;
        let ghost rs = replies@;
        match two_balances(replies) {
            Err(es) => {
                let ghost e = es@;
                let action = self.return_done(adaptor, Err(es));
                proof {
                    if let Action::Finish(Err(x)) = &action {
                        let d = dex_errors(f).len() as int;
                        assert(x@.take(d) =~= dex_errors(f));
                        assert(x@.skip(d) =~= e);
                    }
                }
                action
            },
            Ok((b0, b1)) => {
                let (amount_0, amount_1) = adaptor.return_amounts(b0, b1);
                let (asset_0, asset_1) = adaptor.assets();
                let (to_0, to_1) = self.return_accounts;
                let ghost c0 = self.context@;
                let mut transfers: Vec<CallRequest> = Vec::new();
                if amount_0 > 0 {
                    let args = transfer_request(&asset_0, amount_0, to_0, now_ns, None);
                    let text = transfer_text(&asset_0, amount_0, &to_0);
                    transfers.push(
                        request(&mut self.context, asset_0.ledger_canister_id(), Call::Transfer(args), text),
                    );
                }
                let ghost c1 = self.context@;
                if amount_1 > 0 {
                    let args = transfer_request(&asset_1, amount_1, to_1, now_ns, None);
                    let text = transfer_text(&asset_1, amount_1, &to_1);
                    transfers.push(
                        request(&mut self.context, asset_1.ledger_canister_id(), Call::Transfer(args), text),
                    );
                }
                proof {
                    lemma_ctx_after_add(c0, (if amount_0 > 0 { 1nat } else { 0nat }), (if amount_1 > 0 { 1nat } else { 0nat }));
                    lemma_ctx_after_op(c0, transfers@.len());
                }
                if transfers.len() == 0 {
                    self.stage = Stage::ReturnRefresh;
                    Action::RefreshBalances
                } else {
                    self.stage = Stage::ReturnTransfers;
                    Action::Perform(transfers)
                }
            },
        }
    }
}

/// Whether a deposit of `request` is accepted at `now`: the lock is free, the
/// request is valid, and it is for the adaptor's own two ledgers.
pub open spec fn deposit_accepted(a: AdaptorView, now: u64, request: DepositRequest) -> bool {
    &&& crate::state::remaining_lock(a.audit_trail, now) is None
    &&& crate::validation::allowances_validation(request.allowances@) matches Ok((v0, v1))
        && v0.asset.ledger == held(a).asset_0@.ledger && v1.asset.ledger == held(a).asset_1@.ledger
}

/// Starts a deposit: refused while the lock is held, for an invalid request,
/// or for other tokens than the adaptor's (as `prepare_deposit` says); else
/// the approval of allowance 0.
pub fn start_deposit(adaptor: &KongSwapAdaptor, now_ns: u64, request: DepositRequest) -> (res: (
    Option<Flow>,
    Action,
))
    requires
        adaptor@.balances is Some,
    ensures
        res.0 matches Some(flow) ==> (res.1 matches Action::Perform(rs) && calls_fit(flow, rs@)),
        !deposit_accepted(adaptor@, now_ns, request) ==> (res.0 is None && (res.1 matches Action::Finish(
            Err(es),
        ) && crate::dex::deposit_refused(adaptor@, now_ns, request, es@))),
        deposit_accepted(adaptor@, now_ns, request) ==> ({
            let (v0, v1) = crate::validation::allowances_validation(request.allowances@)->Ok_0;
            let ctx = (Operation::Deposit, None::<usize>);
            &&& res.0 matches Some(flow) && flow.wf() && flow.stage == Stage::Approve(0)
                && flow.return_accounts == (v0.owner, v1.owner) && flow.dex_result is None
                && flow.context@ == ctx_after(ctx, 1) && (flow.allowances matches Some((a0, a1))
                && a0@ == v0 && a1@ == v1 && (res.1 matches Action::Perform(rs) && rs@.len() == 1
                && addressed(rs@[0], step_of(ctx), v0.asset.ledger, approve_message(v0.asset.symbol))
                && (rs@[0].call matches Call::Approve(args) && is_approval_of(args, a0))))
        }),
{
    let ghost allowances = request.allowances@;
    let ghost req = request;
    match adaptor.prepare_deposit(now_ns, request) {
        Err(es) => (None, Action::Finish(Err(es))),
        Ok((a0, a1)) => {
            proof {
                crate::dex::lemma_accepted_allowances_fund_deposit(allowances);
            }
            let mut flow = Flow::new(
                OperationContext::new(Operation::Deposit),
                Stage::Approve(0),
                (a0.owner_account, a1.owner_account),
            );
            flow.allowances = Some((a0, a1));
            let rs = flow.approve_batch(&a0);
            proof {
                lemma_ctx_after_op((Operation::Deposit, None::<usize>), 1);
            }
            (Some(flow), Action::Perform(rs))
        },
    }
}

/// Starts a withdrawal: refused while the lock is held or for a request that
/// names no account for one of the ledgers (as `prepare_withdraw` says); else
/// the LP balance.
pub fn start_withdraw(adaptor: &KongSwapAdaptor, now_ns: u64, request: WithdrawRequest) -> (res: (
    Option<Flow>,
    Action,
))
    requires
        adaptor@.balances is Some,
    ensures
        res.0 matches Some(flow) ==> (res.1 matches Action::Perform(rs) && calls_fit(flow, rs@)),
        ({
            let b = held(adaptor@);
            let accounts = match request.withdraw_accounts {
                None => Some((b.owner_account_0, b.owner_account_1)),
                Some(acc) => match (
                    crate::validation::account_for_ledger(acc.ledger_id_to_account@, b.asset_0@.ledger),
                    crate::validation::account_for_ledger(acc.ledger_id_to_account@, b.asset_1@.ledger),
                ) {
                    (Some(w0), Some(w1)) => Some((w0, w1)),
                    _ => None,
                },
            };
            let ctx = (Operation::Withdraw, None::<usize>);
            if crate::state::remaining_lock(adaptor@.audit_trail, now_ns) is None && accounts is Some {
                &&& res.0 matches Some(flow) && flow.wf() && flow.stage == Stage::WithdrawLpBalance
                    && flow.allowances is None && flow.return_accounts == accounts->Some_0
                    && flow.context@ == ctx_after(ctx, 1)
                &&& res.1 matches Action::Perform(rs) && rs@.len() == 1 && addressed(
                    rs@[0],
                    step_of(ctx),
                    kong_backend_bytes(),
                    "Calling KongSwapBackend.user_balances to get LP balances."@,
                ) && (rs@[0].call matches Call::UserBalances(args) && args.principal_id@ == principal_text(
                    adaptor@.id,
                ))
            } else {
                (res.0 is None && (res.1 matches Action::Finish(Err(es))
                    && crate::dex::withdraw_refused(adaptor@, now_ns, request, es@)))
            }
        }),
{
    match adaptor.prepare_withdraw(now_ns, request) {
        Err(es) => (None, Action::Finish(Err(es))),
        Ok(accounts) => {
            let mut flow = Flow::new(
                OperationContext::new(Operation::Withdraw),
                Stage::WithdrawLpBalance,
                (accounts.withdraw_account_0, accounts.withdraw_account_1),
            );
            let rs = flow.user_balances_batch(adaptor);
            proof {
                lemma_ctx_after_op((Operation::Withdraw, None::<usize>), 1);
            }
            (Some(flow), Action::Perform(rs))
        },
    }
}

/// Starts a refresh of the symbols, fees and balances: refused while the lock
/// is held; else KongSwap's refresh of token 0 and its ledger's metadata.
pub fn start_refresh(adaptor: &KongSwapAdaptor, now_ns: u64) -> (res: (Option<Flow>, Action))
    requires
        adaptor@.balances is Some,
    ensures
        res.0 matches Some(flow) ==> (res.1 matches Action::Perform(rs) && calls_fit(flow, rs@)),
        crate::state::remaining_lock(adaptor@.audit_trail, now_ns) matches Some(r) ==> (res.0 is None
            && (res.1 matches Action::Finish(Err(es)) && crate::state::lock_refusal(es@, r))),
        crate::state::remaining_lock(adaptor@.audit_trail, now_ns) is None ==> ({
            let ctx = (Operation::Balances, None::<usize>);
            &&& res.0 matches Some(flow) && flow.wf() && flow.stage == Stage::Metadata(0)
                && flow.allowances is None && flow.context@ == ctx_after(ctx, 2)
            &&& res.1 matches Action::Perform(rs) && ({
                let ledger = held(adaptor@).asset_0@.ledger;
                &&& rs@.len() == 2
                &&& addressed(rs@[0], step_of(ctx), kong_backend_bytes(), update_token_message(0, ledger))
                &&& rs@[0].call matches Call::UpdateToken(args) && args.token@ == kong_token_text(ledger)
                &&& addressed(rs@[1], step_of(ctx_after(ctx, 1)), ledger, metadata_message(0, ledger))
                &&& rs@[1].call == Call::Metadata
            })
        }),
{
    match adaptor.check_state_lock(now_ns) {
        Err(es) => (None, Action::Finish(Err(es))),
        Ok(()) => {
            let owners = adaptor.owner_accounts();
            let mut flow = Flow::new(
                OperationContext::new(Operation::Balances),
                Stage::Metadata(0),
                owners,
            );
            let rs = flow.metadata_batch(adaptor, 0);
            proof {
                lemma_ctx_after_op((Operation::Balances, None::<usize>), 2);
            }
            (Some(flow), Action::Perform(rs))
        },
    }
}

/// Starts returning what the adaptor holds to the owners: refused while the
/// lock is held; else the balances.
pub fn start_issue_rewards(adaptor: &KongSwapAdaptor, now_ns: u64) -> (res: (Option<Flow>, Action))
    requires
        adaptor@.balances is Some,
    ensures
        res.0 matches Some(flow) ==> (res.1 matches Action::Perform(rs) && calls_fit(flow, rs@)),
        crate::state::remaining_lock(adaptor@.audit_trail, now_ns) matches Some(r) ==> (res.0 is None
            && (res.1 matches Action::Finish(Err(es)) && crate::state::lock_refusal(es@, r))),
        crate::state::remaining_lock(adaptor@.audit_trail, now_ns) is None ==> ({
            let ctx = (Operation::IssueReward, None::<usize>);
            let b = held(adaptor@);
            &&& res.0 matches Some(flow) && flow.wf() && flow.stage == Stage::ReturnBalances
                && flow.allowances is None && flow.return_accounts == (b.owner_account_0, b.owner_account_1)
                && flow.context@ == ctx_after(ctx, 2)
            &&& res.1 matches Action::Perform(rs) && balances_batch(rs@, ctx, adaptor@)
        }),
{
    match adaptor.check_state_lock(now_ns) {
        Err(es) => (None, Action::Finish(Err(es))),
        Ok(()) => {
            let owners = adaptor.owner_accounts();
            let mut flow = Flow::new(
                OperationContext::new(Operation::IssueReward),
                Stage::ReturnBalances,
                owners,
            );
            let rs = flow.balances_batch(adaptor);
            proof {
                lemma_ctx_after_op((Operation::IssueReward, None::<usize>), 2);
            }
            (Some(flow), Action::Perform(rs))
        },
    }
}

} // verus!
