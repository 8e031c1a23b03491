//! Arguments and replies of the KongSwap backend and of the ICRC ledgers, and
//! the evidence that their calls leave in the audit trail.
use crate::natural::NatValue;
use crate::types::{Account, Transfer, TransactionWitness};
use vstd::prelude::*;

verus! {

/// Arguments for adding a token to KongSwap.
#[derive(Clone, Debug, PartialEq, Eq)]
pub struct AddTokenArgs {
    pub token: String,
}

/// Arguments for asking KongSwap to refresh a token's metadata.
#[derive(Clone, Debug, PartialEq, Eq)]
pub struct UpdateTokenArgs {
    pub token: String,
}

/// Arguments for asking KongSwap for a user's balances.
#[derive(Clone, Debug, PartialEq, Eq)]
pub struct UserBalancesArgs {
    pub principal_id: String,
}

/// How a transfer into KongSwap is identified when it is not an ICRC-2 approval.
#[derive(Clone, Debug, PartialEq, Eq)]
pub enum TxId {
    BlockIndex(NatValue),
    TransactionHash(String),
}

/// Arguments for creating a pool.
#[derive(Clone, Debug, PartialEq, Eq)]
pub struct AddPoolArgs {
    pub token_0: String,
    pub amount_0: NatValue,
    pub tx_id_0: Option<TxId>,
    pub token_1: String,
    pub amount_1: NatValue,
    pub tx_id_1: Option<TxId>,
    pub lp_fee_bps: Option<u8>,
}

/// Arguments for asking how much of token 1 goes with an amount of token 0.
#[derive(Clone, Debug, PartialEq, Eq)]
pub struct AddLiquidityAmountsArgs {
    pub token_0: String,
    pub amount: NatValue,
    pub token_1: String,
}

/// The reply to `add_liquidity_amounts`.
#[derive(Clone, Debug, PartialEq, Eq)]
pub struct AddLiquidityAmountsReply {
    pub symbol: String,
    pub chain_0: String,
    pub address_0: String,
    pub symbol_0: String,
    pub amount_0: NatValue,
    pub fee_0: NatValue,
    pub chain_1: String,
    pub address_1: String,
    pub symbol_1: String,
    pub amount_1: NatValue,
    pub fee_1: NatValue,
    pub add_lp_token_amount: NatValue,
}

/// Arguments for adding liquidity to an existing pool.
#[derive(Clone, Debug, PartialEq, Eq)]
pub struct AddLiquidityArgs {
    pub token_0: String,
    pub amount_0: NatValue,
    pub tx_id_0: Option<TxId>,
    pub token_1: String,
    pub amount_1: NatValue,
    pub tx_id_1: Option<TxId>,
}

/// A transfer on an Internet Computer ledger that KongSwap reports.
#[derive(Clone, Debug, PartialEq, Eq)]
pub struct ICTransferReply {
    pub chain: String,
    pub symbol: String,
    /// From the user's point of view: true when the user sends the tokens.
    pub is_send: bool,
    pub amount: NatValue,
    pub canister_id: String,
    pub block_index: NatValue,
}

#[derive(Clone, Debug, PartialEq, Eq)]
pub enum TransferReply {
    IC(ICTransferReply),
}

/// A transfer that a KongSwap call made, with KongSwap's id for it.
#[derive(Clone, Debug, PartialEq, Eq)]
pub struct TransferIdReply {
    pub transfer_id: u64,
    pub transfer: TransferReply,
}

/// Arguments for asking how much a removal of liquidity would give back.
#[derive(Clone, Debug, PartialEq, Eq)]
pub struct RemoveLiquidityAmountsArgs {
    pub token_0: String,
    pub token_1: String,
    pub remove_lp_token_amount: NatValue,
}

/// The reply to `remove_liquidity_amounts`.
#[derive(Clone, Debug, PartialEq, Eq)]
pub struct RemoveLiquidityAmountsReply {
    pub symbol: String,
    pub chain_0: String,
    pub address_0: String,
    pub symbol_0: String,
    pub amount_0: NatValue,
    pub lp_fee_0: NatValue,
    pub chain_1: String,
    pub address_1: String,
    pub symbol_1: String,
    pub amount_1: NatValue,
    pub lp_fee_1: NatValue,
    pub remove_lp_token_amount: NatValue,
}

/// Arguments for removing liquidity.
#[derive(Clone, Debug, PartialEq, Eq)]
pub struct RemoveLiquidityArgs {
    pub token_0: String,
    pub token_1: String,
    pub remove_lp_token_amount: NatValue,
}

/// The reply to `remove_liquidity`.
#[derive(Debug, PartialEq, Eq)]
pub struct RemoveLiquidityReply {
    pub tx_id: u64,
    pub request_id: u64,
    pub status: String,
    pub symbol: String,
    pub chain_0: String,
    pub address_0: String,
    pub symbol_0: String,
    pub amount_0: NatValue,
    pub lp_fee_0: NatValue,
    pub chain_1: String,
    pub address_1: String,
    pub symbol_1: String,
    pub amount_1: NatValue,
    pub lp_fee_1: NatValue,
    pub remove_lp_token_amount: NatValue,
    pub transfer_ids: Vec<TransferIdReply>,
    pub claim_ids: Vec<u64>,
    pub ts: u64,
}

/// A value of an ICRC-1 ledger's metadata.
#[derive(Clone, Debug, PartialEq, Eq)]
pub enum MetadataValue {
    Nat(NatValue),
    /// An integer, in decimal.
    Int(String),
    Text(String),
    Blob(Vec<u8>),
}

/// Arguments of an ICRC-2 approval.
#[derive(Clone, Debug, PartialEq, Eq)]
pub struct ApproveArgs {
    pub from_subaccount: Option<[u8; 32]>,
    pub spender: Account,
    pub amount: NatValue,
    pub expected_allowance: Option<NatValue>,
    pub expires_at: Option<u64>,
    pub fee: Option<NatValue>,
    pub memo: Option<Vec<u8>>,
    pub created_at_time: Option<u64>,
}

/// Arguments of an ICRC-1 transfer.
#[derive(Clone, Debug, PartialEq, Eq)]
pub struct TransferArg {
    pub from_subaccount: Option<[u8; 32]>,
    pub to: Account,
    pub fee: Option<NatValue>,
    pub created_at_time: Option<u64>,
    pub memo: Option<Vec<u8>>,
    pub amount: NatValue,
}

impl AddTokenArgs {
    /// The method that the request calls.
    pub fn method(&self) -> (m: &'static str)
        ensures
            m@ == "add_token"@,
    {
        "add_token"
    }

    /// Whether the call is an update call (one that may change state).
    pub fn update(&self) -> (u: bool)
        ensures
            u == true,
    {
        true
    }
}

impl UpdateTokenArgs {
    /// The method that the request calls.
    pub fn method(&self) -> (m: &'static str)
        ensures
            m@ == "update_token"@,
    {
        "update_token"
    }

    /// Whether the call is an update call (one that may change state).
    pub fn update(&self) -> (u: bool)
        ensures
            u == true,
    {
        true
    }
}

impl UserBalancesArgs {
    /// The method that the request calls.
    pub fn method(&self) -> (m: &'static str)
        ensures
            m@ == "user_balances"@,
    {
        "user_balances"
    }

    /// Whether the call is an update call (one that may change state).
    pub fn update(&self) -> (u: bool)
        ensures
            u == false,
    {
        false
    }
}

impl AddPoolArgs {
    /// The method that the request calls.
    pub fn method(&self) -> (m: &'static str)
        ensures
            m@ == "add_pool"@,
    {
        "add_pool"
    }

    /// Whether the call is an update call (one that may change state).
    pub fn update(&self) -> (u: bool)
        ensures
            u == true,
    {
        true
    }
}

impl AddLiquidityAmountsArgs {
    /// The method that the request calls.
    pub fn method(&self) -> (m: &'static str)
        ensures
            m@ == "add_liquidity_amounts"@,
    {
        "add_liquidity_amounts"
    }

    /// Whether the call is an update call (one that may change state).
    pub fn update(&self) -> (u: bool)
        ensures
            u == false,
    {
        false
    }
}

impl AddLiquidityArgs {
    /// The method that the request calls.
    pub fn method(&self) -> (m: &'static str)
        ensures
            m@ == "add_liquidity"@,
    {
        "add_liquidity"
    }

    /// Whether the call is an update call (one that may change state).
    pub fn update(&self) -> (u: bool)
        ensures
            u == true,
    {
        true
    }
}

impl RemoveLiquidityAmountsArgs {
    /// The method that the request calls.
    pub fn method(&self) -> (m: &'static str)
        ensures
            m@ == "remove_liquidity_amounts"@,
    {
        "remove_liquidity_amounts"
    }

    /// Whether the call is an update call (one that may change state).
    pub fn update(&self) -> (u: bool)
        ensures
            u == false,
    {
        false
    }
}

impl RemoveLiquidityArgs {
    /// The method that the request calls.
    pub fn method(&self) -> (m: &'static str)
        ensures
            m@ == "remove_liquidity"@,
    {
        "remove_liquidity"
    }

    /// Whether the call is an update call (one that may change state).
    pub fn update(&self) -> (u: bool)
        ensures
            u == true,
    {
        true
    }
}

impl ApproveArgs {
    /// The method that the request calls.
    pub fn method(&self) -> (m: &'static str)
        ensures
            m@ == "icrc2_approve"@,
    {
        "icrc2_approve"
    }

    /// Whether the call is an update call (one that may change state).
    pub fn update(&self) -> (u: bool)
        ensures
            u == true,
    {
        true
    }
}

/// The ledger transfer that a KongSwap transfer report stands for.
pub open spec fn transfer_of(r: TransferIdReply) -> (Seq<char>, Seq<u64>, Seq<u64>) {
    match r.transfer {
        TransferReply::IC(t) => (t.canister_id@, t.amount.digits@, t.block_index.digits@),
    }
}

/// The ledger, amount and block index of a transfer.
pub open spec fn transfer_view(t: Transfer) -> (Seq<char>, Seq<u64>, Seq<u64>) {
    (t.ledger_canister_id@, t.amount_decimals.digits@, t.block_index.digits@)
}

impl Transfer {
    /// The transfer that KongSwap reports: its ledger, amount and block index.
    pub fn from_transfer_id_reply(transfer_id_reply: &TransferIdReply) -> (t: Transfer)
        ensures
            transfer_view(t) == transfer_of(*transfer_id_reply),
    {
        match &transfer_id_reply.transfer {
            TransferReply::IC(ic) => Transfer {
                ledger_canister_id: ic.canister_id.clone(),
                amount_decimals: ic.amount.duplicate(),
                block_index: ic.block_index.duplicate(),
            },
        }
    }
}

/// The evidence that a KongSwap call with the given transfers leaves: the ledger
/// transfers, in order.
pub fn ledger_witness(transfer_ids: &Vec<TransferIdReply>) -> (w: TransactionWitness)
    ensures
        w matches TransactionWitness::Ledger(ts) && ts@.len() == transfer_ids@.len() && forall|i: int|
            0 <= i < ts@.len() ==> transfer_view(#[trigger] ts@[i]) == transfer_of(transfer_ids@[i]),
{
    let mut transfers: Vec<Transfer> = Vec::new();
    let mut i: usize = 0;
    while i < transfer_ids.len()
        invariant
            i <= transfer_ids@.len(),
            transfers@.len() == i,
            forall|j: int|
                0 <= j < i ==> transfer_view(#[trigger] transfers@[j]) == transfer_of(
                    transfer_ids@[j],
                ),
        decreases transfer_ids@.len() - i,
    {
        transfers.push(Transfer::from_transfer_id_reply(&transfer_ids[i]));
        i = i + 1;
    }
    TransactionWitness::Ledger(transfers)
}

/// The evidence that an approval on ledger `ledger_canister_id` leaves: one
/// transfer of the approved amount at the returned block.
pub fn approve_witness(ledger_canister_id: String, amount: &NatValue, block_index: &NatValue) -> (w:
    TransactionWitness)
    ensures
        w matches TransactionWitness::Ledger(ts) && ts@.len() == 1 && transfer_view(ts@[0]) == (
            ledger_canister_id@,
            amount.digits@,
            block_index.digits@,
        ),
{
    let mut transfers: Vec<Transfer> = Vec::new();
    transfers.push(
        Transfer {
            ledger_canister_id,
            amount_decimals: amount.duplicate(),
            block_index: block_index.duplicate(),
        },
    );
    TransactionWitness::Ledger(transfers)
}

} // verus!
