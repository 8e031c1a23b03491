//! The treasury-manager interface that the adaptor serves: operations, steps,
//! errors, accounts, assets, allowances, requests and the audit-trail record.
use crate::natural::NatValue;
use crate::principal::PrincipalId;
use vstd::prelude::*;

verus! {

/// The operations that the treasury manager performs.
#[derive(Clone, Copy, Debug, PartialEq, Eq, Structural)]
pub enum Operation {
    Deposit,
    Withdraw,
    Balances,
    IssueReward,
}

/// The position of a call within an operation.
#[derive(Clone, Copy, Debug, PartialEq, Eq, Structural)]
pub struct Step {
    pub index: usize,
    pub is_final: bool,
}

/// A step of an operation, as recorded in the audit trail.
#[derive(Clone, Copy, Debug, PartialEq, Eq, Structural)]
pub struct TreasuryManagerOperation {
    pub operation: Operation,
    pub step: Step,
}

/// The kinds of errors that the treasury manager reports.
#[derive(Clone, Debug, PartialEq, Eq)]
pub enum ErrorKind {
    /// The request does not meet what the operation requires.
    Precondition,
    /// A reply did not meet what the operation expects of it.
    Postcondition,
    /// An inter-canister call failed.
    Call { method: String, canister_id: PrincipalId },
    /// A canister replied with an error.
    Backend,
    /// The state is locked by another operation.
    TemporarilyUnavailable,
}

pub const ERROR_CODE_PRECONDITION: u64 = 1001;

pub const ERROR_CODE_POSTCONDITION: u64 = 1002;

pub const ERROR_CODE_CALL: u64 = 1003;

pub const ERROR_CODE_BACKEND: u64 = 1004;

pub const ERROR_CODE_TEMPORARILY_UNAVAILABLE: u64 = 1005;

/// An error reported to the caller of the treasury manager.
#[derive(Clone, Debug, PartialEq, Eq)]
pub struct Error {
    pub code: u64,
    pub message: String,
    pub kind: ErrorKind,
}

impl Error {
    pub fn new_precondition(message: String) -> (e: Error)
        ensures
            e == (Error { code: ERROR_CODE_PRECONDITION, message, kind: ErrorKind::Precondition }),
    {
        Error { code: ERROR_CODE_PRECONDITION, message, kind: ErrorKind::Precondition }
    }

    pub fn new_postcondition(message: String) -> (e: Error)
        ensures
            e == (Error { code: ERROR_CODE_POSTCONDITION, message, kind: ErrorKind::Postcondition }),
    {
        Error { code: ERROR_CODE_POSTCONDITION, message, kind: ErrorKind::Postcondition }
    }

    /// An error that a backend replied with. It carries the code of a
    /// temporary unavailability: asking again may succeed.
    pub fn new_backend(message: String) -> (e: Error)
        ensures
            e == (Error { code: ERROR_CODE_TEMPORARILY_UNAVAILABLE, message, kind: ErrorKind::Backend }),
    {
        Error { code: ERROR_CODE_TEMPORARILY_UNAVAILABLE, message, kind: ErrorKind::Backend }
    }

    pub fn new_temporarily_unavailable(message: String) -> (e: Error)
        ensures
            e == (Error { code: ERROR_CODE_TEMPORARILY_UNAVAILABLE, message, kind: ErrorKind::TemporarilyUnavailable }),
    {
        Error {
            code: ERROR_CODE_TEMPORARILY_UNAVAILABLE,
            message,
            kind: ErrorKind::TemporarilyUnavailable,
        }
    }

    /// A copy of the error.
    pub fn duplicate(&self) -> (e: Error)
        ensures
            e == *self,
    {
        let kind = match &self.kind {
            ErrorKind::Precondition => ErrorKind::Precondition,
            ErrorKind::Postcondition => ErrorKind::Postcondition,
            ErrorKind::Call { method, canister_id } => ErrorKind::Call {
                method: method.clone(),
                canister_id: *canister_id,
            },
            ErrorKind::Backend => ErrorKind::Backend,
            ErrorKind::TemporarilyUnavailable => ErrorKind::TemporarilyUnavailable,
        };
        Error { code: self.code, message: self.message.clone(), kind }
    }

    pub fn new_call(method: String, canister_id: PrincipalId, message: String) -> (e: Error)
        ensures
            e == (Error { code: ERROR_CODE_CALL, message, kind: ErrorKind::Call { method, canister_id } }),
    {
        Error { code: ERROR_CODE_CALL, message, kind: ErrorKind::Call { method, canister_id } }
    }
}

/// An ICRC-1 account: an owner and an optional 32-byte subaccount.
#[derive(Clone, Copy, Debug, PartialEq, Eq)]
pub struct Account {
    pub owner: PrincipalId,
    pub subaccount: Option<[u8; 32]>,
}

/// An asset as the caller describes it (not yet validated).
#[derive(Clone, Debug, PartialEq, Eq)]
pub enum Asset {
    Token { symbol: String, ledger_canister_id: PrincipalId, ledger_fee_decimals: NatValue },
}

impl Asset {
    /// A copy of the asset.
    pub fn duplicate(&self) -> (a: Asset)
        ensures
            match (a, *self) {
                (
                    Asset::Token { symbol: s1, ledger_canister_id: l1, ledger_fee_decimals: f1 },
                    Asset::Token { symbol: s2, ledger_canister_id: l2, ledger_fee_decimals: f2 },
                ) => s1 == s2 && l1 == l2 && f1.digits@ == f2.digits@,
            },
    {
        match self {
            Asset::Token { symbol, ledger_canister_id, ledger_fee_decimals } => Asset::Token {
                symbol: symbol.clone(),
                ledger_canister_id: *ledger_canister_id,
                ledger_fee_decimals: ledger_fee_decimals.duplicate(),
            },
        }
    }
}

/// An allowance that the caller gives the treasury manager (not yet validated).
#[derive(Clone)]
pub struct Allowance {
    pub asset: Asset,
    pub amount_decimals: NatValue,
    pub owner_account: Account,
}

/// The allowances of a deposit.
#[derive(Clone)]
pub struct DepositRequest {
    pub allowances: Vec<Allowance>,
}

/// The allowances that the treasury manager is installed with.
#[derive(Clone)]
pub struct TreasuryManagerInit {
    pub allowances: Vec<Allowance>,
}

/// Where withdrawn tokens go, by ledger; keys occur at most once, as in a map
/// (see `validation::ledgers_distinct`).
#[derive(Clone)]
pub struct Accounts {
    pub ledger_id_to_account: Vec<(PrincipalId, Account)>,
}

/// A withdrawal, with optional destination accounts.
#[derive(Clone)]
pub struct WithdrawRequest {
    pub withdraw_accounts: Option<Accounts>,
}

/// A ledger transfer that a transaction caused.
#[derive(Clone, Debug, PartialEq, Eq)]
pub struct Transfer {
    pub ledger_canister_id: String,
    pub amount_decimals: NatValue,
    pub block_index: NatValue,
}

/// What a successful call leaves behind as evidence.
#[derive(Clone, Debug, PartialEq, Eq)]
pub enum TransactionWitness {
    Ledger(Vec<Transfer>),
    NonLedger(String),
}

/// One entry of the audit trail.
#[derive(Debug, PartialEq, Eq)]
pub struct StableTransaction {
    pub timestamp_ns: u64,
    pub canister_id: PrincipalId,
    pub result: Result<TransactionWitness, Error>,
    pub human_readable: String,
    pub operation: TreasuryManagerOperation,
}

} // verus!
