//! The decisions of the deposit, withdrawal and refresh flows: what to ask the
//! DEX and the ledgers, and what to make of their replies.
use crate::kong_types::{
    RemoveLiquidityAmountsReply, AddLiquidityAmountsArgs, AddLiquidityArgs, AddPoolArgs, AddTokenArgs, ApproveArgs,
    MetadataValue, RemoveLiquidityAmountsArgs, RemoveLiquidityArgs, RemoveLiquidityReply,
    TransferArg, UpdateTokenArgs, UserBalancesArgs,
};
use crate::natural::{decode_error_message, decode_nat_to_u64, digit_base, significant_len, NatValue};
use crate::principal::{kong_backend_bytes, kong_backend_canister_id, principal_text, PrincipalId};
use crate::state::KongSwapAdaptor;
use crate::symbol::{symbol_check, symbol_text, ValidatedSymbol};
use crate::text::{
    chars_equal, debug_str, decimal, join, join_chars, push_all, push_str, str_chars, str_debug,
    string_chars, string_from_chars, strings_equal, u64_decimal,
};
use crate::types::{
    Account, Error, ErrorKind, StableTransaction, TransactionWitness, TreasuryManagerOperation,
    ERROR_CODE_BACKEND, ERROR_CODE_CALL, ERROR_CODE_POSTCONDITION, ERROR_CODE_TEMPORARILY_UNAVAILABLE,
};
use crate::state::{lock_refusal, remaining_lock, AdaptorView};
use crate::types::{DepositRequest, WithdrawRequest, ERROR_CODE_PRECONDITION};
use crate::types::Allowance;
use crate::validation::{
    allowance_problems, allowance_validation, asset_validation, allowances_validation, account_for_ledger, missing_withdraw_account_message, utf8, AssetView,
    ValidatedAllowance, ValidatedAsset, ValidatedDepositRequest, ValidatedWithdrawRequest,
};
use vstd::prelude::*;

verus! {

/// How many ledger transactions that incur a fee a deposit takes, per token.
pub const DEPOSIT_LEDGER_FEES_PER_TOKEN: u64 = 2;

/// The liquidity-provider fee of a new pool, in basis points (0.3%).
pub const LP_FEE_BPS: u8 = 30;

/// The error that a call's outcome amounts to, if any: a failed call, or a
/// reply that was an error.
pub open spec fn outcome_error<T>(
    method: String,
    canister_id: PrincipalId,
    outcome: Result<Result<(TransactionWitness, T), String>, String>,
) -> Option<Error> {
    match outcome {
        Err(m) => Some(
            Error { code: ERROR_CODE_CALL, message: m, kind: ErrorKind::Call { method, canister_id } },
        ),
        Ok(Err(m)) => Some(
            Error { code: ERROR_CODE_TEMPORARILY_UNAVAILABLE, message: m, kind: ErrorKind::Backend },
        ),
        Ok(Ok(_)) => None,
    }
}

impl KongSwapAdaptor {
    /// Records a call in the audit trail and returns what the caller gets of it.
    ///
    /// `outcome` is `Err` with the agent's message when the call failed,
    /// `Ok(Err(..))` with the message of a reply that is an error, and
    /// `Ok(Ok((witness, output)))` for a reply that is not.
    pub fn record_transaction<T>(
        &mut self,
        operation: TreasuryManagerOperation,
        canister_id: PrincipalId,
        method: String,
        timestamp_ns: u64,
        human_readable: String,
        outcome: Result<Result<(TransactionWitness, T), String>, String>,
    ) -> (res: Result<T, Error>)
        ensures
            final(self)@.id == old(self)@.id,
            final(self)@.balances == old(self)@.balances,
            final(self)@.audit_trail == old(self)@.audit_trail.push(
                StableTransaction {
                    timestamp_ns,
                    canister_id,
                    result: match outcome {
                        Ok(Ok((w, _))) => Ok(w),
                        _ => Err(outcome_error(method, canister_id, outcome)->Some_0),
                    },
                    human_readable,
                    operation,
                },
            ),
            match outcome {
                Ok(Ok((_, out))) => res == Ok::<T, Error>(out),
                _ => res == Err::<T, Error>(outcome_error(method, canister_id, outcome)->Some_0),
            },
    {
        let ghost m0 = method;
        let ghost o0 = outcome;
        match outcome {
            Err(m) => {
                let err = Error::new_call(method, canister_id, m);
                let recorded = err.duplicate();
                self.push_audit_trail_transaction(
                    StableTransaction {
                        timestamp_ns,
                        canister_id,
                        result: Err(recorded),
                        human_readable,
                        operation,
                    },
                );
                Err(err)
            },
            Ok(Err(m)) => {
                let err = Error::new_backend(m);
                let recorded = err.duplicate();
                self.push_audit_trail_transaction(
                    StableTransaction {
                        timestamp_ns,
                        canister_id,
                        result: Err(recorded),
                        human_readable,
                        operation,
                    },
                );
                Err(err)
            },
            Ok(Ok((witness, out))) => {
                self.push_audit_trail_transaction(
                    StableTransaction {
                        timestamp_ns,
                        canister_id,
                        result: Ok(witness),
                        human_readable,
                        operation,
                    },
                );
                Ok(out)
            },
        }
    }
}

/// How KongSwap names the token of a ledger: `IC.<ledger>`.
pub open spec fn kong_token_text(ledger: Seq<u8>) -> Seq<char> {
    "IC."@ + principal_text(ledger)
}

/// KongSwap's name for the token of the ledger.
pub fn kong_token(ledger: &PrincipalId) -> (s: String)
    ensures
        s@ == kong_token_text(ledger@),
{
    let mut out = str_chars("IC.");
    let t = ledger.to_text();
    push_all(&mut out, &string_chars(&t));
    string_from_chars(&out)
}

/// Arguments for adding the token of a ledger to KongSwap.
pub fn add_token_request(ledger: &PrincipalId) -> (args: AddTokenArgs)
    ensures
        args.token@ == kong_token_text(ledger@),
{
    AddTokenArgs { token: kong_token(ledger) }
}

/// Arguments for asking KongSwap to refresh the token of a ledger.
pub fn update_token_request(ledger: &PrincipalId) -> (args: UpdateTokenArgs)
    ensures
        args.token@ == kong_token_text(ledger@),
{
    UpdateTokenArgs { token: kong_token(ledger) }
}

/// Arguments for asking KongSwap for the balances of `principal`.
pub fn user_balances_request(principal: &PrincipalId) -> (args: UserBalancesArgs)
    ensures
        args.principal_id@ == principal_text(principal@),
{
    UserBalancesArgs { principal_id: principal.to_text() }
}

/// The message with which KongSwap refuses to add a token it already has.
pub open spec fn token_exists_message(token: Seq<char>) -> Seq<char> {
    "Token "@ + token + " already exists"@
}

/// What adding a token comes to: done, also when KongSwap already had it.
pub fn add_token_outcome(token: &String, result: Result<(), Error>) -> (res: Result<(), Error>)
    ensures
        match result {
            Ok(()) => res is Ok,
            Err(e) => if e.kind == ErrorKind::Backend && e.message@ == token_exists_message(token@) {
                res is Ok
            } else {
                res == Err::<(), Error>(e)
            },
        },
{
    match result {
        Ok(()) => Ok(()),
        Err(e) => {
            let is_backend = match &e.kind {
                ErrorKind::Backend => true,
                _ => false,
            };
            if is_backend {
                let mut expected = str_chars("Token ");
                push_all(&mut expected, &string_chars(token));
                push_str(&mut expected, " already exists");
                if chars_equal(&string_chars(&e.message), &expected) {
                    return Ok(());
                }
            }
            Err(e)
        },
    }
}

/// The problems found with converted LP balances, in order.
pub open spec fn lp_conversion_errors(s: Seq<(String, Result<NatValue, String>)>) -> Seq<Seq<char>>
    decreases s.len(),
{
    if s.len() == 0 {
        Seq::empty()
    } else {
        let rest = lp_conversion_errors(s.drop_last());
        match s.last().1 {
            Ok(_) => rest,
            Err(e) => rest.push("Failed to convert balance for "@ + s.last().0@ + ": "@ + e@),
        }
    }
}

/// The last entry for `symbol`.
pub open spec fn last_for_symbol(s: Seq<(String, Result<NatValue, String>)>, symbol: Seq<char>) -> Option<
    int,
>
    decreases s.len(),
{
    if s.len() == 0 {
        None
    } else if s.last().0@ == symbol {
        Some(s.len() - 1)
    } else {
        last_for_symbol(s.drop_last(), symbol)
    }
}

proof fn lemma_last_for_symbol(s: Seq<(String, Result<NatValue, String>)>, symbol: Seq<char>)
    ensures
        last_for_symbol(s, symbol) matches Some(k) ==> 0 <= k < s.len() && s[k].0@ == symbol,
    decreases s.len(),
{
    if s.len() > 0 && s.last().0@ != symbol {
        lemma_last_for_symbol(s.drop_last(), symbol);
    }
}

/// Whether the LP balances give the balance of the LP token: there are none
/// (a balance of zero), or every one was converted and one is the token's.
pub open spec fn lp_balance_found(lp_token: Seq<char>, s: Seq<(String, Result<NatValue, String>)>) -> bool {
    s.len() == 0 || (lp_conversion_errors(s).len() == 0 && last_for_symbol(s, lp_token) is Some)
}

/// The balance of the LP token, when the LP balances give it.
pub open spec fn lp_balance_value(lp_token: Seq<char>, s: Seq<(String, Result<NatValue, String>)>) -> nat {
    if s.len() == 0 {
        0
    } else {
        s[last_for_symbol(s, lp_token)->Some_0].1->Ok_0.value()
    }
}

/// Whether `e` is the error of LP balances that do not give the LP token's
/// balance: the conversions that failed, if any, else the token's absence.
pub open spec fn lp_balance_error(e: Error, lp_token: Seq<char>, s: Seq<(String, Result<NatValue, String>)>) -> bool {
    &&& e.code == 0
    &&& e.kind == ErrorKind::Backend
    &&& e.message@ == if lp_conversion_errors(s).len() > 0 {
        "Failed to convert balances: "@ + str_debug(join(lp_conversion_errors(s), ", "@))
    } else {
        "Failed to get LP balance for "@ + lp_token + "."@
    }
}

/// The LP balance for `lp_token` among KongSwap's converted LP balances
/// (symbol and amount, or why the amount could not be converted): zero when
/// there are none; an error listing every failed conversion; else the last
/// balance for `lp_token`, or an error when there is none.
pub fn select_lp_balance(lp_token: &String, balances: Vec<(String, Result<NatValue, String>)>) -> (res:
    Result<NatValue, Error>)
    ensures
        balances@.len() == 0 ==> (res matches Ok(n) && n.value() == 0),
        balances@.len() > 0 && lp_conversion_errors(balances@).len() > 0 ==> (res matches Err(e)
            && e.code == 0 && e.kind == ErrorKind::Backend && e.message@
            == "Failed to convert balances: "@ + str_debug(
            join(lp_conversion_errors(balances@), ", "@),
        )),
        balances@.len() > 0 && lp_conversion_errors(balances@).len() == 0 ==> match last_for_symbol(
            balances@,
            lp_token@,
        ) {
            Some(k) => res matches Ok(n) && balances@[k].1 matches Ok(b) && n.digits@ == b.digits@,
            None => res matches Err(e) && e.code == 0 && e.kind
                == ErrorKind::Backend && e.message@ == "Failed to get LP balance for "@ + lp_token@
                + "."@,
        },
        res is Ok <==> lp_balance_found(lp_token@, balances@),
        res matches Ok(n) ==> n.value() == lp_balance_value(lp_token@, balances@),
        res matches Err(e) ==> lp_balance_error(e, lp_token@, balances@),
{
    if balances.len() == 0 {
        return Ok(NatValue::from_u64(0));
    }
    let mut errors: Vec<Vec<char>> = Vec::new();
    let mut i: usize = 0;
    while i < balances.len()
        invariant
            i <= balances@.len(),
            errors.deep_view() =~~= lp_conversion_errors(balances@.take(i as int)),
        decreases balances@.len() - i,
    {
        assert(balances@.take(i + 1).drop_last() =~= balances@.take(i as int));
        match &balances[i].1 {
            Ok(_) => {},
            Err(e) => {
                let mut msg = str_chars("Failed to convert balance for ");
                push_all(&mut msg, &string_chars(&balances[i].0));
                push_str(&mut msg, ": ");
                push_all(&mut msg, &string_chars(e));
                errors.push(msg);
            },
        }
        i = i + 1;
    }
    assert(balances@.take(i as int) =~= balances@);
    if errors.len() > 0 {
        let joined = join_chars(&errors, ", ");
        let joined_s = string_from_chars(&joined);
        let dbg = debug_str(joined_s.as_str());
        let mut msg = str_chars("Failed to convert balances: ");
        push_all(&mut msg, &string_chars(&dbg));
        return Err(Error { code: 0, message: string_from_chars(&msg), kind: ErrorKind::Backend });
    }
    let wanted = string_chars(lp_token);
    let mut k: usize = balances.len();
    assert(balances@.take(k as int) =~= balances@);
    while k > 0
        invariant
            k <= balances@.len(),
            last_for_symbol(balances@, lp_token@) == last_for_symbol(
                balances@.take(k as int),
                lp_token@,
            ),
            wanted@ == lp_token@,
            balances@.len() > 0,
            lp_conversion_errors(balances@).len() == 0,
        decreases k,
    {
        assert(balances@.take(k as int).drop_last() =~= balances@.take(k - 1));
        assert(balances@.take(k as int).last() == balances@[k - 1]);
        if chars_equal(&string_chars(&balances[k - 1].0), &wanted) {
            match &balances[k - 1].1 {
                Ok(b) => {
                    return Ok(b.duplicate());
                },
                Err(_) => {
                    proof {
                        lemma_no_errors_all_ok(balances@, k - 1);
                    }
                    assert(false);
                },
            }
        }
        k = k - 1;
    }
    assert(balances@.take(0).len() == 0);
    let mut msg = str_chars("Failed to get LP balance for ");
    push_all(&mut msg, &wanted);
    push_str(&mut msg, ".");
    Err(Error { code: 0, message: string_from_chars(&msg), kind: ErrorKind::Backend })
}

proof fn lemma_no_errors_all_ok(s: Seq<(String, Result<NatValue, String>)>, k: int)
    requires
        0 <= k < s.len(),
        lp_conversion_errors(s).len() == 0,
    ensures
        s[k].1 is Ok,
    decreases s.len(),
{
    let rest = lp_conversion_errors(s.drop_last());
    if s.last().1 is Ok {
        if k < s.len() - 1 {
            lemma_no_errors_all_ok(s.drop_last(), k);
        }
    }
}

/// The first value under `key` in ledger metadata.
pub open spec fn metadata_value(reply: Seq<(String, MetadataValue)>, key: Seq<char>) -> Option<
    MetadataValue,
>
    decreases reply.len(),
{
    if reply.len() == 0 {
        None
    } else if reply[0].0@ == key {
        Some(reply[0].1)
    } else {
        metadata_value(reply.drop_first(), key)
    }
}

fn find_metadata(reply: &Vec<(String, MetadataValue)>, key: &str) -> (res: Option<usize>)
    ensures
        match res {
            Some(i) => i < reply@.len() && metadata_value(reply@, key@) == Some(reply@[i as int].1),
            None => metadata_value(reply@, key@) is None,
        },
{
    let wanted = str_chars(key);
    let mut i: usize = 0;
    assert(reply@.skip(0) =~= reply@);
    while i < reply.len()
        invariant
            i <= reply@.len(),
            wanted@ == key@,
            metadata_value(reply@, key@) == metadata_value(reply@.skip(i as int), key@),
        decreases reply@.len() - i,
    {
        assert(reply@.skip(i as int)[0] == reply@[i as int]);
        assert(reply@.skip(i as int).drop_first() =~= reply@.skip(i + 1));
        if chars_equal(&string_chars(&reply[i].0), &wanted) {
            return Some(i);
        }
        i = i + 1;
    }
    None
}

/// The message for ledger metadata that lacks `key`.
pub open spec fn missing_metadata_message(ledger: Seq<u8>, key: Seq<char>) -> Seq<char> {
    "Ledger "@ + principal_text(ledger) + " icrc1_metadata response does not have an `"@ + key
        + "`."@
}

fn missing_metadata_error(ledger: &PrincipalId, key: &str) -> (e: Error)
    ensures
        e.code == ERROR_CODE_POSTCONDITION,
        e.kind == ErrorKind::Postcondition,
        e.message@ == missing_metadata_message(ledger@, key@),
{
    let mut msg = str_chars("Ledger ");
    push_all(&mut msg, &string_chars(&ledger.to_text()));
    push_str(&mut msg, " icrc1_metadata response does not have an `");
    push_str(&mut msg, key);
    push_str(&mut msg, "`.");
    Error::new_postcondition(string_from_chars(&msg))
}

/// The asset after reading its ledger's metadata: the `icrc1:symbol` text,
/// when it is a valid symbol, and the `icrc1:fee` number, when it fits a
/// `u64`, replace the old ones; metadata without a text symbol or without a
/// number fee is an error.
pub open spec fn metadata_outcome(asset: AssetView, reply: Seq<(String, MetadataValue)>) -> Result<
    AssetView,
    Seq<char>,
> {
    match metadata_value(reply, "icrc1:symbol"@) {
        Some(MetadataValue::Text(t)) => {
            let a1 = match symbol_check(utf8(t@)) {
                Ok(b) => AssetView { symbol: b, ..asset },
                Err(_) => asset,
            };
            match metadata_value(reply, "icrc1:fee"@) {
                Some(MetadataValue::Nat(n)) => Ok(
                    if n.value() < digit_base() {
                        AssetView { fee: n.value() as u64, ..a1 }
                    } else {
                        a1
                    },
                ),
                _ => Err(missing_metadata_message(asset.ledger, "icrc1:fee"@)),
            }
        },
        _ => Err(missing_metadata_message(asset.ledger, "icrc1:symbol"@)),
    }
}

/// Takes a ledger's `icrc1_metadata` reply into the asset (see `metadata_outcome`).
pub fn apply_ledger_metadata(asset: ValidatedAsset, reply: &Vec<(String, MetadataValue)>) -> (res:
    Result<ValidatedAsset, Error>)
    ensures
        match metadata_outcome(asset@, reply@) {
            Ok(a) => res matches Ok(r) && r@ == a,
            Err(m) => res matches Err(e) && e.code == ERROR_CODE_POSTCONDITION && e.kind
                == ErrorKind::Postcondition && e.message@ == m,
        },
{
    let ledger = asset.ledger_canister_id();
    let mut asset = asset;
    let symbol_index = match find_metadata(reply, "icrc1:symbol") {
        Some(i) => i,
        None => {
            return Err(missing_metadata_error(&ledger, "icrc1:symbol"));
        },
    };
    match &reply[symbol_index].1 {
        MetadataValue::Text(t) => {
            if let Ok(new_symbol) = ValidatedSymbol::try_from_str(t.as_str()) {
                asset.set_symbol(new_symbol);
            }
        },
        _ => {
            return Err(missing_metadata_error(&ledger, "icrc1:symbol"));
        },
    }
    let fee_index = match find_metadata(reply, "icrc1:fee") {
        Some(i) => i,
        None => {
            return Err(missing_metadata_error(&ledger, "icrc1:fee"));
        },
    };
    match &reply[fee_index].1 {
        MetadataValue::Nat(n) => {
            if let Ok(new_fee) = decode_nat_to_u64(n) {
                asset.set_ledger_fee_decimals(new_fee);
            }
        },
        _ => {
            return Err(missing_metadata_error(&ledger, "icrc1:fee"));
        },
    }
    Ok(asset)
}

/// A ledger's balance reply as a `u64`, or a postcondition error.
pub fn ledger_balance_from_reply(balance: &NatValue) -> (res: Result<u64, Error>)
    ensures
        match res {
            Ok(v) => balance.value() < digit_base() && v as nat == balance.value(),
            Err(e) => balance.value() >= digit_base() && e.code == ERROR_CODE_POSTCONDITION && e.kind
                == ErrorKind::Postcondition && e.message@ == decode_error_message(
                balance.value(),
                significant_len(balance.digits@),
            ),
        },
{
    match decode_nat_to_u64(balance) {
        Ok(v) => Ok(v),
        Err(msg) => Err(Error::new_postcondition(msg)),
    }
}

/// Both balances, or every error among the two.
pub fn combine_balance_results(r0: Result<u64, Error>, r1: Result<u64, Error>) -> (res: Result<
    (u64, u64),
    Vec<Error>,
>)
    ensures
        match (r0, r1) {
            (Ok(b0), Ok(b1)) => res == Ok::<(u64, u64), Vec<Error>>((b0, b1)),
            (Err(e), Ok(_)) => res matches Err(es) && es@ == seq![e],
            (Ok(_), Err(e)) => res matches Err(es) && es@ == seq![e],
            (Err(e0), Err(e1)) => res matches Err(es) && es@ == seq![e0, e1],
        },
{
    match (r0, r1) {
        (Ok(b0), Ok(b1)) => Ok((b0, b1)),
        (Err(e), Ok(_)) => {
            let mut v: Vec<Error> = Vec::new();
            v.push(e);
            Err(v)
        },
        (Ok(_), Err(e)) => {
            let mut v: Vec<Error> = Vec::new();
            v.push(e);
            Err(v)
        },
        (Err(e0), Err(e1)) => {
            let mut v: Vec<Error> = Vec::new();
            v.push(e0);
            v.push(e1);
            assert(v@ =~= seq![e0, e1]);
            Err(v)
        },
    }
}

/// The outcome of two steps: success when both succeed, else every error,
/// those of the first step first.
pub fn combine_step_results(r0: Result<(), Vec<Error>>, r1: Result<(), Vec<Error>>) -> (res: Result<
    (),
    Vec<Error>,
>)
    ensures
        match (r0, r1) {
            (Ok(_), Ok(_)) => res is Ok,
            (Err(e), Ok(_)) => res matches Err(es) && es@ == e@,
            (Ok(_), Err(e)) => res matches Err(es) && es@ == e@,
            (Err(e0), Err(e1)) => res matches Err(es) && es@ == e0@ + e1@,
        },
{
    match (r0, r1) {
        (Ok(_), Ok(_)) => Ok(()),
        (Err(e), Ok(_)) => Err(e),
        (Ok(_), Err(e)) => Err(e),
        (Err(e0), Err(e1)) => {
            let mut all = e0;
            let mut rest = e1;
            all.append(&mut rest);
            Err(all)
        },
    }
}

/// What a deposit puts into the pool of a token: the allowance less the fees
/// of the ledger transactions it takes (none when the fees exceed it).
pub open spec fn deposit_amount_of(amount: u64, fee: u64) -> nat {
    if amount >= DEPOSIT_LEDGER_FEES_PER_TOKEN * fee {
        (amount - DEPOSIT_LEDGER_FEES_PER_TOKEN * fee) as nat
    } else {
        0
    }
}

/// The amount that a deposit puts into the pool for this allowance.
pub fn deposit_amount(allowance: &ValidatedAllowance) -> (amount: u64)
    ensures
        amount as nat == deposit_amount_of(
            allowance.amount_decimals,
            allowance.asset@.fee,
        ),
{
    let fees: u128 = (DEPOSIT_LEDGER_FEES_PER_TOKEN as u128) * (allowance.asset.ledger_fee_decimals() as u128);
    let amount = allowance.amount_decimals as u128;
    if amount >= fees {
        (amount - fees) as u64
    } else {
        0
    }
}

/// Both allowances of an accepted list are large enough for a deposit: each
/// at least ten times its ledger fee.
pub proof fn lemma_accepted_allowances_fund_deposit(s: Seq<Allowance>)
    requires
        allowances_validation(s) is Ok,
    ensures
        ({
            let (v0, v1) = allowances_validation(s)->Ok_0;
            v0.amount >= 10 * v0.asset.fee && v1.amount >= 10 * v1.asset.fee
        }),
{
    lemma_valid_allowance_funds_deposit(s[s.len() - 2]);
    lemma_valid_allowance_funds_deposit(s[s.len() - 1]);
}

/// Whether `args` approve KongSwap for the allowance: the allowance less the
/// approval's own fee, expecting no earlier allowance, never expiring.
pub open spec fn is_approval_of(args: ApproveArgs, allowance: ValidatedAllowance) -> bool {
    &&& args.from_subaccount is None
    &&& args.spender.owner@ == kong_backend_bytes()
    &&& args.spender.subaccount is None
    &&& args.amount.value() == allowance.amount_decimals - allowance.asset@.fee
    &&& args.expected_allowance matches Some(e) && e.value() == 0
    &&& args.expires_at == Some(u64::MAX)
    &&& args.fee matches Some(f) && f.value() == allowance.asset@.fee
    &&& args.memo is None
    &&& args.created_at_time is None
}

/// Whether `args` create the pool of the two tokens with what the deposit puts in.
pub open spec fn is_add_pool_of(args: AddPoolArgs, a0: ValidatedAllowance, a1: ValidatedAllowance) -> bool {
    &&& args.token_0@ == kong_token_text(a0.asset@.ledger)
    &&& args.amount_0.value() == deposit_amount_of(a0.amount_decimals, a0.asset@.fee)
    &&& args.tx_id_0 is None
    &&& args.token_1@ == kong_token_text(a1.asset@.ledger)
    &&& args.amount_1.value() == deposit_amount_of(a1.amount_decimals, a1.asset@.fee)
    &&& args.tx_id_1 is None
    &&& args.lp_fee_bps == Some(LP_FEE_BPS)
}

/// Whether `args` ask how much of token 1 goes with what the deposit puts in of token 0.
pub open spec fn is_amounts_query_of(
    args: AddLiquidityAmountsArgs,
    a0: ValidatedAllowance,
    a1: ValidatedAllowance,
) -> bool {
    &&& args.token_0@ == kong_token_text(a0.asset@.ledger)
    &&& args.amount.value() == deposit_amount_of(a0.amount_decimals, a0.asset@.fee)
    &&& args.token_1@ == kong_token_text(a1.asset@.ledger)
}

/// Whether `args` top up the pool with what the deposit puts in of token 0 and
/// `amount_1` of token 1.
pub open spec fn is_top_up_of(
    args: AddLiquidityArgs,
    a0: ValidatedAllowance,
    a1: ValidatedAllowance,
    amount_1: NatValue,
) -> bool {
    &&& args.token_0@ == kong_token_text(a0.asset@.ledger)
    &&& args.amount_0.value() == deposit_amount_of(a0.amount_decimals, a0.asset@.fee)
    &&& args.tx_id_0 is None
    &&& args.token_1@ == kong_token_text(a1.asset@.ledger)
    &&& args.amount_1.digits@ == amount_1.digits@
    &&& args.tx_id_1 is None
}

/// Whether `args` transfer `amount` of the asset to `to`, paying the ledger fee.
pub open spec fn is_transfer_of(
    args: TransferArg,
    asset: AssetView,
    amount: u64,
    to: Account,
    created_at_time: u64,
    memo: Option<Vec<u8>>,
) -> bool {
    &&& args.from_subaccount is None
    &&& args.to == to
    &&& args.fee matches Some(f) && f.value() == asset.fee
    &&& args.created_at_time == Some(created_at_time)
    &&& args.memo == memo
    &&& args.amount.value() == amount
}

/// A valid allowance is large enough for a deposit: it is at least ten times
/// the ledger fee, so the approval (the allowance less the approval's fee) is
/// defined and covers exactly what the deposit puts into the pool plus the fee
/// of KongSwap's transfer, and what is put in is at least eight times the fee.
/// What is put in and the fees of the deposit's ledger transactions add up to
/// the allowance.
pub proof fn lemma_valid_allowance_funds_deposit(a: Allowance)
    requires
        allowance_validation(a) is Ok,
    ensures
        ({
            let v = allowance_validation(a)->Ok_0;
            &&& v.amount >= 10 * v.asset.fee
            &&& deposit_amount_of(v.amount, v.asset.fee) >= 8 * v.asset.fee
            &&& v.amount - v.asset.fee == deposit_amount_of(v.amount, v.asset.fee) + v.asset.fee
            &&& deposit_amount_of(v.amount, v.asset.fee) + DEPOSIT_LEDGER_FEES_PER_TOKEN * v.asset.fee
                == v.amount
        }),
{
    let n = a.amount_decimals.value();
    let fee = asset_validation(a.asset)->Ok_0.fee;
    assert(allowance_problems(a).len() == 0);
    assert(n / 10 >= fee);
    assert(n >= 10 * fee) by (nonlinear_arith)
        requires
            n / 10 >= fee,
    ;
}

/// The ICRC-2 approval that lets KongSwap take an allowance: the allowance
/// less the approval's own fee, expecting no earlier allowance, never expiring.
pub fn approve_request(allowance: &ValidatedAllowance) -> (args: ApproveArgs)
    requires
        allowance.amount_decimals >= allowance.asset@.fee,
    ensures
        is_approval_of(args, *allowance),
{
    let fee = allowance.asset.ledger_fee_decimals();
    ApproveArgs {
        from_subaccount: None,
        spender: Account { owner: kong_backend_canister_id(), subaccount: None },
        amount: NatValue::from_u64(allowance.amount_decimals - fee),
        expected_allowance: Some(NatValue::from_u64(0)),
        expires_at: Some(u64::MAX),
        fee: Some(NatValue::from_u64(fee)),
        memo: None,
        created_at_time: None,
    }
}

/// Arguments for creating the pool of the two tokens with what the deposit puts in.
pub fn add_pool_request(allowance_0: &ValidatedAllowance, allowance_1: &ValidatedAllowance) -> (args:
    AddPoolArgs)
    ensures
        is_add_pool_of(args, *allowance_0, *allowance_1),
{
    AddPoolArgs {
        token_0: kong_token(&allowance_0.asset.ledger_canister_id()),
        amount_0: NatValue::from_u64(deposit_amount(allowance_0)),
        tx_id_0: None,
        token_1: kong_token(&allowance_1.asset.ledger_canister_id()),
        amount_1: NatValue::from_u64(deposit_amount(allowance_1)),
        tx_id_1: None,
        lp_fee_bps: Some(LP_FEE_BPS),
    }
}

/// Arguments for asking how much of token 1 a top-up with token 0 takes.
pub fn add_liquidity_amounts_request(
    allowance_0: &ValidatedAllowance,
    allowance_1: &ValidatedAllowance,
) -> (args: AddLiquidityAmountsArgs)
    ensures
        is_amounts_query_of(args, *allowance_0, *allowance_1),
{
    AddLiquidityAmountsArgs {
        token_0: kong_token(&allowance_0.asset.ledger_canister_id()),
        amount: NatValue::from_u64(deposit_amount(allowance_0)),
        token_1: kong_token(&allowance_1.asset.ledger_canister_id()),
    }
}

/// Arguments for topping up the pool: token 0 as the deposit puts it in, and
/// `amount_1` of token 1, as KongSwap computed it.
pub fn add_liquidity_request(
    allowance_0: &ValidatedAllowance,
    allowance_1: &ValidatedAllowance,
    amount_1: &NatValue,
) -> (args: AddLiquidityArgs)
    ensures
        is_top_up_of(args, *allowance_0, *allowance_1, *amount_1),
{
    AddLiquidityArgs {
        token_0: kong_token(&allowance_0.asset.ledger_canister_id()),
        amount_0: NatValue::from_u64(deposit_amount(allowance_0)),
        tx_id_0: None,
        token_1: kong_token(&allowance_1.asset.ledger_canister_id()),
        amount_1: amount_1.duplicate(),
        tx_id_1: None,
    }
}

/// The LP token of the adaptor's pool.
pub open spec fn lp_token_text(b: crate::balances::ValidatedBalances) -> Seq<char> {
    symbol_text(b.asset_0@.symbol) + "_"@ + symbol_text(b.asset_1@.symbol)
}

/// The message of a refused deposit for other tokens than the adaptor's.
pub open spec fn unsupported_pair_message(
    b: crate::balances::ValidatedBalances,
    ledger_0: Seq<u8>,
    ledger_1: Seq<u8>,
) -> Seq<char> {
    "This KongSwapAdaptor only supports "@ + symbol_text(b.asset_0@.symbol) + ":"@ + symbol_text(
        b.asset_1@.symbol,
    ) + " as token_{0,1} (got ledger_0 "@ + principal_text(ledger_0) + ", ledger_1 "@
        + principal_text(ledger_1) + ")."@
}

/// Whether `e` is KongSwap's refusal to create the adaptor's pool because it exists already.
pub open spec fn pool_exists_error(b: crate::balances::ValidatedBalances, e: Error) -> bool {
    e.kind == ErrorKind::Backend && (e.message@ == "LP token "@ + lp_token_text(b) + " already exists"@
        || e.message@ == "Pool "@ + lp_token_text(b) + " already exists"@)
}

impl KongSwapAdaptor {
    /// Refuses a deposit for other ledgers than the adaptor's two: each adaptor
    /// manages a single pair of tokens.
    pub fn validate_deposit_args(
        &self,
        allowance_0: &ValidatedAllowance,
        allowance_1: &ValidatedAllowance,
    ) -> (res: Result<(), Error>)
        requires
            self@.balances is Some,
        ensures
            ({
                let b = self@.balances->Some_0;
                if allowance_0.asset@.ledger == b.asset_0@.ledger && allowance_1.asset@.ledger
                    == b.asset_1@.ledger {
                    res is Ok
                } else {
                    res matches Err(e) && e.code == crate::types::ERROR_CODE_PRECONDITION && e.kind
                        == ErrorKind::Precondition && e.message@ == unsupported_pair_message(
                        b,
                        allowance_0.asset@.ledger,
                        allowance_1.asset@.ledger,
                    )
                }
            }),
    {
        let new_ledger_0 = allowance_0.asset.ledger_canister_id();
        let new_ledger_1 = allowance_1.asset.ledger_canister_id();
        let (old_asset_0, old_asset_1) = self.assets();
        if !new_ledger_0.same_as(&old_asset_0.ledger_canister_id()) || !new_ledger_1.same_as(
            &old_asset_1.ledger_canister_id(),
        ) {
            let mut msg = str_chars("This KongSwapAdaptor only supports ");
            push_all(&mut msg, &string_chars(&old_asset_0.symbol()));
            push_str(&mut msg, ":");
            push_all(&mut msg, &string_chars(&old_asset_1.symbol()));
            push_str(&mut msg, " as token_{0,1} (got ledger_0 ");
            push_all(&mut msg, &string_chars(&new_ledger_0.to_text()));
            push_str(&mut msg, ", ledger_1 ");
            push_all(&mut msg, &string_chars(&new_ledger_1.to_text()));
            push_str(&mut msg, ").");
            return Err(Error::new_precondition(string_from_chars(&msg)));
        }
        Ok(())
    }

    /// Whether KongSwap refused to create the pool because it exists already.
    pub fn is_pool_already_deployed_error(&self, message: &String) -> (res: bool)
        requires
            self@.balances is Some,
        ensures
            res == (message@ == "LP token "@ + lp_token_text(self@.balances->Some_0)
                + " already exists"@ || message@ == "Pool "@ + lp_token_text(
                self@.balances->Some_0,
            ) + " already exists"@),
    {
        let lp = string_chars(&self.lp_token());
        let msg = string_chars(message);
        let mut a = str_chars("LP token ");
        push_all(&mut a, &lp);
        push_str(&mut a, " already exists");
        let mut b = str_chars("Pool ");
        push_all(&mut b, &lp);
        push_str(&mut b, " already exists");
        chars_equal(&msg, &a) || chars_equal(&msg, &b)
    }

    /// Whether a deposit goes on with a top-up: the pool could not be created
    /// because it exists already.
    pub fn should_top_up(&self, add_pool_result: &Result<(), Error>) -> (res: bool)
        requires
            self@.balances is Some,
        ensures
            res == (*add_pool_result matches Err(e) && pool_exists_error(self@.balances->Some_0, e)),
    {
        match add_pool_result {
            Err(e) => {
                let is_backend = match &e.kind {
                    ErrorKind::Backend => true,
                    _ => false,
                };
                is_backend && self.is_pool_already_deployed_error(&e.message)
            },
            Ok(()) => false,
        }
    }

    /// Arguments for asking what removing `amount` LP tokens would give back.
    pub fn remove_liquidity_amounts_request(&self, remove_lp_token_amount: NatValue) -> (args:
        RemoveLiquidityAmountsArgs)
        requires
            self@.balances is Some,
        ensures
            args.token_0@ == symbol_text(self@.balances->Some_0.asset_0@.symbol),
            args.token_1@ == symbol_text(self@.balances->Some_0.asset_1@.symbol),
            args.remove_lp_token_amount == remove_lp_token_amount,
    {
        let (asset_0, asset_1) = self.assets();
        RemoveLiquidityAmountsArgs {
            token_0: asset_0.symbol(),
            token_1: asset_1.symbol(),
            remove_lp_token_amount,
        }
    }

    /// Arguments for removing `amount` LP tokens.
    pub fn remove_liquidity_request(&self, remove_lp_token_amount: NatValue) -> (args:
        RemoveLiquidityArgs)
        requires
            self@.balances is Some,
        ensures
            args.token_0@ == symbol_text(self@.balances->Some_0.asset_0@.symbol),
            args.token_1@ == symbol_text(self@.balances->Some_0.asset_1@.symbol),
            args.remove_lp_token_amount == remove_lp_token_amount,
    {
        let (asset_0, asset_1) = self.assets();
        RemoveLiquidityArgs {
            token_0: asset_0.symbol(),
            token_1: asset_1.symbol(),
            remove_lp_token_amount,
        }
    }

    /// What is returned to the owners of the adaptor's ledger balances: each
    /// less the fee of the transfer (nothing when the fee exceeds it).
    pub fn return_amounts(&self, balance_0_decimals: u64, balance_1_decimals: u64) -> (res: (u64, u64))
        requires
            self@.balances is Some,
        ensures
            res.0 == if balance_0_decimals >= self@.balances->Some_0.asset_0@.fee {
                (balance_0_decimals - self@.balances->Some_0.asset_0@.fee) as u64
            } else {
                0
            },
            res.1 == if balance_1_decimals >= self@.balances->Some_0.asset_1@.fee {
                (balance_1_decimals - self@.balances->Some_0.asset_1@.fee) as u64
            } else {
                0
            },
    {
        let (asset_0, asset_1) = self.assets();
        (
            balance_0_decimals.saturating_sub(asset_0.ledger_fee_decimals()),
            balance_1_decimals.saturating_sub(asset_1.ledger_fee_decimals()),
        )
    }
}

/// The transfer that returns `amount` of the asset to `to`, paying the ledger fee.
pub fn transfer_request(
    asset: &ValidatedAsset,
    amount_decimals: u64,
    to: Account,
    created_at_time: u64,
    memo: Option<Vec<u8>>,
) -> (args: TransferArg)
    ensures
        is_transfer_of(args, asset@, amount_decimals, to, created_at_time, memo),
{
    TransferArg {
        from_subaccount: None,
        to,
        fee: Some(NatValue::from_u64(asset.ledger_fee_decimals())),
        created_at_time: Some(created_at_time),
        memo,
        amount: NatValue::from_u64(amount_decimals),
    }
}

/// The decimal renderings of the claim ids, separated by `, `.
pub open spec fn claim_ids_text(ids: Seq<u64>) -> Seq<char>
    decreases ids.len(),
{
    if ids.len() == 0 {
        Seq::empty()
    } else if ids.len() == 1 {
        decimal(ids[0] as nat)
    } else {
        claim_ids_text(ids.drop_last()) + ", "@ + decimal(ids.last() as nat)
    }
}

fn claim_ids_chars(ids: &Vec<u64>) -> (chars: Vec<char>)
    ensures
        chars@ == claim_ids_text(ids@),
{
    let mut out: Vec<char> = Vec::new();
    let mut i: usize = 0;
    while i < ids.len()
        invariant
            i <= ids@.len(),
            out@ == claim_ids_text(ids@.take(i as int)),
        decreases ids@.len() - i,
    {
        let ghost prev = ids@.take(i as int);
        if i > 0 {
            push_str(&mut out, ", ");
        }
        push_all(&mut out, &u64_decimal(ids[i]));
        i = i + 1;
        proof {
            let cur = ids@.take(i as int);
            assert(cur.drop_last() =~= prev);
            assert(cur.last() == ids@[i - 1]);
            if i == 1 {
                assert(out@ =~= claim_ids_text(cur));
            } else {
                assert(out@ =~= claim_ids_text(cur));
            }
        }
    }
    assert(ids@.take(ids@.len() as int) =~= ids@);
    out
}

/// Whether a removal that left no claims gave back more of a token, with its
/// LP fees, than a `u64` holds.
pub open spec fn removal_overflow(reply: RemoveLiquidityReply) -> bool {
    &&& reply.claim_ids@.len() == 0
    &&& !(reply.amount_0.value() + reply.lp_fee_0.value() < digit_base() && reply.amount_1.value()
        + reply.lp_fee_1.value() < digit_base())
}

fn sum_fits(a: &NatValue, b: &NatValue) -> (fits: bool)
    ensures
        fits == (a.value() + b.value() < digit_base()),
{
    match (decode_nat_to_u64(a), decode_nat_to_u64(b)) {
        (Ok(x), Ok(y)) => x.checked_add(y).is_some(),
        _ => false,
    }
}

/// Whether the removal overflows as `removal_overflow` says: its amounts
/// cannot be taken as `u64`.
pub fn removal_overflows(reply: &RemoveLiquidityReply) -> (res: bool)
    ensures
        res == removal_overflow(*reply),
{
    if reply.claim_ids.len() != 0 {
        return false;
    }
    !(sum_fits(&reply.amount_0, &reply.lp_fee_0) && sum_fits(&reply.amount_1, &reply.lp_fee_1))
}

/// What a removal of liquidity gave back: when KongSwap returned claims, the
/// withdrawal may be incomplete, which is an error; else each token's amount
/// with its share of the LP fees.
pub fn withdrawal_from_reply(reply: &RemoveLiquidityReply) -> (res: Result<(u64, u64), Vec<Error>>)
    requires
        reply.claim_ids@.len() == 0 ==> reply.amount_0.value() + reply.lp_fee_0.value()
            < digit_base() && reply.amount_1.value() + reply.lp_fee_1.value() < digit_base(),
    ensures
        reply.claim_ids@.len() > 0 ==> (res matches Err(es) && es@.len() == 1 && es@[0].code
            == ERROR_CODE_BACKEND && es@[0].kind == ErrorKind::Backend && es@[0].message@
            == "Withdrawal from DEX might not be complete, returned claims: "@ + claim_ids_text(
            reply.claim_ids@,
        ) + "."@),
        reply.claim_ids@.len() == 0 ==> (res matches Ok((a0, a1)) && a0 == reply.amount_0.value()
            + reply.lp_fee_0.value() && a1 == reply.amount_1.value() + reply.lp_fee_1.value()),
{
    if reply.claim_ids.len() > 0 {
        let mut msg = str_chars("Withdrawal from DEX might not be complete, returned claims: ");
        push_all(&mut msg, &claim_ids_chars(&reply.claim_ids));
        push_str(&mut msg, ".");
        let mut errs: Vec<Error> = Vec::new();
        errs.push(
            Error { code: ERROR_CODE_BACKEND, message: string_from_chars(&msg), kind: ErrorKind::Backend },
        );
        return Err(errs);
    }
    let a0 = decode_nat_to_u64(&reply.amount_0);
    let f0 = decode_nat_to_u64(&reply.lp_fee_0);
    let a1 = decode_nat_to_u64(&reply.amount_1);
    let f1 = decode_nat_to_u64(&reply.lp_fee_1);
    match (a0, f0, a1, f1) {
        (Ok(a0), Ok(f0), Ok(a1), Ok(f1)) => Ok((a0 + f0, a1 + f1)),
        _ => {
            assert(false);
            Err(Vec::new())
        },
    }
}

/// The message for a claim whose ledger is not one of the adaptor's.
pub open spec fn unknown_claim_ledger_message(ledger: Seq<char>, claim_id: u64) -> Seq<char> {
    "Cannot identify asset for ledger `"@ + ledger + "` for claim ID "@ + decimal(claim_id as nat)
}

/// The adaptor's asset whose ledger has the textual form `ledger`, if any.
pub open spec fn claim_asset(b: crate::balances::ValidatedBalances, ledger: Seq<char>) -> Option<ValidatedAsset> {
    if principal_text(b.asset_0@.ledger) == ledger {
        Some(b.asset_0)
    } else if principal_text(b.asset_1@.ledger) == ledger {
        Some(b.asset_1)
    } else {
        None
    }
}

/// Whether a claim came back with one of the adaptor's ledgers and an amount
/// that fits a `u64`.
pub open spec fn claim_accepted(
    b: crate::balances::ValidatedBalances,
    response: Result<(Option<String>, NatValue), Error>,
) -> bool {
    response matches Ok((Some(ledger), amount)) && claim_asset(b, ledger@) is Some && amount.value()
        < digit_base()
}

/// Whether `e` is the error of claim `claim_id` that came back with `response`.
pub open spec fn claim_error(
    b: crate::balances::ValidatedBalances,
    claim_id: u64,
    response: Result<(Option<String>, NatValue), Error>,
    e: Error,
) -> bool {
    match response {
        Err(x) => e == x,
        Ok((None, _)) => e.code == ERROR_CODE_POSTCONDITION && e.kind == ErrorKind::Postcondition
            && e.message@ == "Claim for claim ID "@ + decimal(claim_id as nat)
            + " returned no ledger canister ID."@,
        Ok((Some(ledger), amount)) => e.code == ERROR_CODE_POSTCONDITION && e.kind
            == ErrorKind::Postcondition && e.message@ == if claim_asset(b, ledger@) is None {
            unknown_claim_ledger_message(ledger@, claim_id)
        } else {
            "Failed to decode amount for claim ID "@ + decimal(claim_id as nat) + ": "@
                + decode_error_message(amount.value(), significant_len(amount.digits@))
        },
    }
}

impl KongSwapAdaptor {
    /// What a claim (`claim_id`) came back with: its ledger and amount, or an
    /// error. The ledger must be one of the adaptor's (by its textual form) and
    /// the amount must fit a `u64`.
    pub fn claim_outcome(
        &self,
        claim_id: u64,
        response: Result<(Option<String>, NatValue), Error>,
    ) -> (res: Result<(ValidatedAsset, u64), Error>)
        requires
            self@.balances is Some,
        ensures
            ({
                let b = self@.balances->Some_0;
                match response {
                    Err(e) => res == Err::<(ValidatedAsset, u64), Error>(e),
                    Ok((None, _)) => res matches Err(e) && e.code == ERROR_CODE_POSTCONDITION
                        && e.kind == ErrorKind::Postcondition && e.message@ == "Claim for claim ID "@
                        + decimal(claim_id as nat) + " returned no ledger canister ID."@,
                    Ok((Some(ledger), amount)) => {
                        let asset = if principal_text(b.asset_0@.ledger) == ledger@ {
                            Some(b.asset_0)
                        } else if principal_text(b.asset_1@.ledger) == ledger@ {
                            Some(b.asset_1)
                        } else {
                            None
                        };
                        match asset {
                            None => res matches Err(e) && e.code == ERROR_CODE_POSTCONDITION
                                && e.kind == ErrorKind::Postcondition && e.message@
                                == unknown_claim_ledger_message(ledger@, claim_id),
                            Some(a) => if amount.value() < digit_base() {
                                res == Ok::<(ValidatedAsset, u64), Error>(
                                    (a, amount.value() as u64),
                                )
                            } else {
                                res matches Err(e) && e.code == ERROR_CODE_POSTCONDITION && e.kind
                                    == ErrorKind::Postcondition && e.message@
                                    == "Failed to decode amount for claim ID "@ + decimal(
                                    claim_id as nat,
                                ) + ": "@ + decode_error_message(
                                    amount.value(),
                                    significant_len(amount.digits@),
                                )
                            },
                        }
                    },
                }
            }),
            res is Ok <==> claim_accepted(self@.balances->Some_0, response),
            res matches Err(e) ==> claim_error(self@.balances->Some_0, claim_id, response, e),
    {
        match response {
            Err(e) => Err(e),
            Ok((None, _)) => {
                let mut msg = str_chars("Claim for claim ID ");
                push_all(&mut msg, &u64_decimal(claim_id));
                push_str(&mut msg, " returned no ledger canister ID.");
                Err(Error::new_postcondition(string_from_chars(&msg)))
            },
            Ok((Some(ledger), amount)) => match self.get_asset_for_ledger(&ledger) {
                Some(asset) => match decode_nat_to_u64(&amount) {
                    Ok(v) => Ok((asset, v)),
                    Err(err) => {
                        let mut msg = str_chars("Failed to decode amount for claim ID ");
                        push_all(&mut msg, &u64_decimal(claim_id));
                        push_str(&mut msg, ": ");
                        push_all(&mut msg, &string_chars(&err));
                        Err(Error::new_postcondition(string_from_chars(&msg)))
                    },
                },
                None => {
                    let mut msg = str_chars("Cannot identify asset for ledger `");
                    push_all(&mut msg, &string_chars(&ledger));
                    push_str(&mut msg, "` for claim ID ");
                    push_all(&mut msg, &u64_decimal(claim_id));
                    Err(Error::new_postcondition(string_from_chars(&msg)))
                },
            },
        }
    }
}

/// The balances that KongSwap says removing the LP tokens would give back.
pub fn remove_liquidity_amounts_balances(reply: &RemoveLiquidityAmountsReply) -> (res: Result<
    (u64, u64),
    Error,
>)
    ensures
        reply.amount_0.value() >= digit_base() ==> (res matches Err(e) && e.code
            == ERROR_CODE_POSTCONDITION && e.kind == ErrorKind::Postcondition && e.message@
            == decode_error_message(reply.amount_0.value(), significant_len(reply.amount_0.digits@))),
        reply.amount_0.value() < digit_base() && reply.amount_1.value() >= digit_base() ==> (
        res matches Err(e) && e.code == ERROR_CODE_POSTCONDITION && e.kind
            == ErrorKind::Postcondition && e.message@ == decode_error_message(
            reply.amount_1.value(),
            significant_len(reply.amount_1.digits@),
        )),
        reply.amount_0.value() < digit_base() && reply.amount_1.value() < digit_base() ==> res
            == Ok::<(u64, u64), Error>(
            (reply.amount_0.value() as u64, reply.amount_1.value() as u64),
        ),
{
    let b0 = match decode_nat_to_u64(&reply.amount_0) {
        Ok(v) => v,
        Err(msg) => {
            return Err(Error::new_postcondition(msg));
        },
    };
    let b1 = match decode_nat_to_u64(&reply.amount_1) {
        Ok(v) => v,
        Err(msg) => {
            return Err(Error::new_postcondition(msg));
        },
    };
    Ok((b0, b1))
}

/// Whether `es` is how a deposit of `request` is refused at `now`: with the
/// lock's error while it is held; else with one precondition error, for an
/// invalid request or for other ledgers than the adaptor's.
pub open spec fn deposit_refused(a: AdaptorView, now: u64, request: DepositRequest, es: Seq<Error>) -> bool {
    match remaining_lock(a.audit_trail, now) {
        Some(r) => lock_refusal(es, r),
        None => {
            &&& es.len() == 1
            &&& es[0].code == ERROR_CODE_PRECONDITION
            &&& es[0].kind == ErrorKind::Precondition
            &&& es[0].message@ == match allowances_validation(request.allowances@) {
                Err(m) => "Failed to validate DepositRequest: "@ + m,
                Ok((v0, v1)) => unsupported_pair_message(
                    a.balances->Some_0,
                    v0.asset.ledger,
                    v1.asset.ledger,
                ),
            }
        },
    }
}

/// Whether `es` is how a withdrawal of `request` is refused at `now`: with the
/// lock's error while it is held; else with one precondition error naming the
/// first of the adaptor's ledgers that the request gives no account for.
pub open spec fn withdraw_refused(a: AdaptorView, now: u64, request: WithdrawRequest, es: Seq<Error>) -> bool {
    match remaining_lock(a.audit_trail, now) {
        Some(r) => lock_refusal(es, r),
        None => {
            let b = a.balances->Some_0;
            &&& es.len() == 1
            &&& es[0].code == ERROR_CODE_PRECONDITION
            &&& es[0].kind == ErrorKind::Precondition
            &&& request.withdraw_accounts matches Some(accounts) && es[0].message@ == if account_for_ledger(
                accounts.ledger_id_to_account@,
                b.asset_0@.ledger,
            ) is None {
                missing_withdraw_account_message(b.asset_0@.ledger)
            } else {
                missing_withdraw_account_message(b.asset_1@.ledger)
            }
        },
    }
}

impl KongSwapAdaptor {
    /// What a deposit is checked for before any call: the lock is free, the
    /// request is valid (else a precondition error), and it is for the
    /// adaptor's own two ledgers.
    pub fn prepare_deposit(&self, now_ns: u64, request: DepositRequest) -> (res: Result<
        (ValidatedAllowance, ValidatedAllowance),
        Vec<Error>,
    >)
        requires
            self@.balances is Some,
        ensures
            remaining_lock(self@.audit_trail, now_ns) matches Some(r) ==> (res matches Err(es)
                && lock_refusal(es@, r)),
            res matches Err(es) ==> deposit_refused(self@, now_ns, request, es@),
            remaining_lock(self@.audit_trail, now_ns) is None ==> match allowances_validation(
                request.allowances@,
            ) {
                Err(m) => res matches Err(es) && es@.len() == 1 && es@[0].code
                    == ERROR_CODE_PRECONDITION && es@[0].kind == ErrorKind::Precondition
                    && es@[0].message@ == "Failed to validate DepositRequest: "@ + m,
                Ok((v0, v1)) => {
                    let b = self@.balances->Some_0;
                    if v0.asset.ledger == b.asset_0@.ledger && v1.asset.ledger == b.asset_1@.ledger {
                        res matches Ok((a0, a1)) && a0@ == v0 && a1@ == v1
                    } else {
                        res matches Err(es) && es@.len() == 1 && es@[0].kind
                            == ErrorKind::Precondition && es@[0].message@
                            == unsupported_pair_message(b, v0.asset.ledger, v1.asset.ledger)
                    }
                },
            },
    {
        self.check_state_lock(now_ns)?;
        let validated = match ValidatedDepositRequest::try_from_request(request) {
            Ok(v) => v,
            Err(err) => {
                let mut errs: Vec<Error> = Vec::new();
                errs.push(Error::new_precondition(err));
                return Err(errs);
            },
        };
        let ValidatedDepositRequest { allowance_0, allowance_1 } = validated;
        if let Err(err) = self.validate_deposit_args(&allowance_0, &allowance_1) {
            let mut errs: Vec<Error> = Vec::new();
            errs.push(err);
            return Err(errs);
        }
        Ok((allowance_0, allowance_1))
    }

    /// What a withdrawal is checked for before any call: the lock is free, and
    /// the destination accounts are the owners' or, when the request names
    /// accounts, those it names for the two ledgers (else a precondition error).
    pub fn prepare_withdraw(&self, now_ns: u64, request: WithdrawRequest) -> (res: Result<
        ValidatedWithdrawRequest,
        Vec<Error>,
    >)
        requires
            self@.balances is Some,
        ensures
            remaining_lock(self@.audit_trail, now_ns) matches Some(r) ==> (res matches Err(es)
                && lock_refusal(es@, r)),
            res matches Err(es) ==> withdraw_refused(self@, now_ns, request, es@),
            remaining_lock(self@.audit_trail, now_ns) is None ==> ({
                let b = self@.balances->Some_0;
                match request.withdraw_accounts {
                    None => res matches Ok(r) && r.withdraw_account_0 == b.owner_account_0
                        && r.withdraw_account_1 == b.owner_account_1,
                    Some(accounts) => match (
                        account_for_ledger(accounts.ledger_id_to_account@, b.asset_0@.ledger),
                        account_for_ledger(accounts.ledger_id_to_account@, b.asset_1@.ledger),
                    ) {
                        (None, _) => res matches Err(es) && es@.len() == 1 && es@[0].kind
                            == ErrorKind::Precondition && es@[0].message@
                            == missing_withdraw_account_message(b.asset_0@.ledger),
                        (Some(_), None) => res matches Err(es) && es@.len() == 1 && es@[0].kind
                            == ErrorKind::Precondition && es@[0].message@
                            == missing_withdraw_account_message(b.asset_1@.ledger),
                        (Some(a0), Some(a1)) => res matches Ok(r) && r.withdraw_account_0 == a0
                            && r.withdraw_account_1 == a1,
                    },
                }
            }),
    {
        self.check_state_lock(now_ns)?;
        let (ledger_0, ledger_1) = self.ledgers();
        let (default_owner_0, default_owner_1) = self.owner_accounts();
        match ValidatedWithdrawRequest::try_from_parts(
            ledger_0,
            ledger_1,
            default_owner_0,
            default_owner_1,
            request,
        ) {
            Ok(v) => Ok(v),
            Err(err) => {
                let mut errs: Vec<Error> = Vec::new();
                errs.push(Error::new_precondition(err));
                Err(errs)
            },
        }
    }
}

} // verus!
