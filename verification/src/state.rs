//! The adaptor's state: its identity, its balances once initialized, and the
//! audit trail, which also serves as the lock that keeps operations apart.
use crate::audit::OperationContext;
use crate::balances::ValidatedBalances;
use crate::principal::{principal_text, PrincipalId};
use crate::symbol::symbol_text;
use crate::text::{decimal, push_all, push_str, str_chars, string_chars, string_from_chars, chars_equal, u64_decimal};
use crate::types::{Account, Error, ErrorKind, Operation, StableTransaction, ERROR_CODE_TEMPORARILY_UNAVAILABLE};
use crate::validation::ValidatedAsset;
use vstd::prelude::*;

verus! {

pub const NS_IN_SECOND: u64 = 1_000_000_000;

/// How long a deposit or withdrawal may hold the lock: 45 minutes.
pub const MAX_LOCK_DURATION_NS: u64 = 2_700_000_000_000;

/// Whether an operation takes the lock while it runs.
pub open spec fn is_locking(op: Operation) -> bool {
    op == Operation::Deposit || op == Operation::Withdraw
}

/// The index of the last transaction of a locking operation.
pub open spec fn last_locking(trail: Seq<StableTransaction>) -> Option<int>
    decreases trail.len(),
{
    if trail.len() == 0 {
        None
    } else if is_locking(trail.last().operation.operation) {
        Some(trail.len() - 1)
    } else {
        last_locking(trail.drop_last())
    }
}

/// `a + b`, or `u64::MAX` when that does not fit.
pub open spec fn saturating_add(a: u64, b: u64) -> u64 {
    if a + b <= u64::MAX {
        (a + b) as u64
    } else {
        u64::MAX
    }
}

/// How much longer the lock is held at `now_ns`: the last transaction of a
/// deposit or withdrawal holds it, unless that step was final, for
/// `MAX_LOCK_DURATION_NS` after it was recorded.
pub open spec fn remaining_lock(trail: Seq<StableTransaction>, now_ns: u64) -> Option<u64> {
    match last_locking(trail) {
        None => None,
        Some(i) => if trail[i].operation.step.is_final {
            None
        } else {
            let expiry = saturating_add(trail[i].timestamp_ns, MAX_LOCK_DURATION_NS);
            if now_ns > expiry {
                None
            } else {
                Some((expiry - now_ns) as u64)
            }
        },
    }
}

/// The message of the error with which a locked state refuses an operation.
pub open spec fn locked_message(remaining_ns: u64) -> Seq<char> {
    "Canister state is locked. Please try again in "@ + decimal((remaining_ns / NS_IN_SECOND) as nat)
        + " seconds."@
}

/// Whether `es` is the refusal of a locked state with `remaining_ns` left:
/// one `TemporarilyUnavailable` error that says how long to wait.
pub open spec fn lock_refusal(es: Seq<Error>, remaining_ns: u64) -> bool {
    &&& es.len() == 1
    &&& es[0].code == ERROR_CODE_TEMPORARILY_UNAVAILABLE
    &&& es[0].kind == ErrorKind::TemporarilyUnavailable
    &&& es[0].message@ == locked_message(remaining_ns)
}

/// The index of the last transaction of `op` whose step is not final.
pub open spec fn last_open(trail: Seq<StableTransaction>, op: Operation) -> Option<int>
    decreases trail.len(),
{
    if trail.len() == 0 {
        None
    } else if trail.last().operation.operation == op && !trail.last().operation.step.is_final {
        Some(trail.len() - 1)
    } else {
        last_open(trail.drop_last(), op)
    }
}

/// The transaction with its step marked final.
pub open spec fn finalized(t: StableTransaction) -> StableTransaction {
    StableTransaction {
        operation: crate::types::TreasuryManagerOperation {
            step: crate::types::Step { is_final: true, ..t.operation.step },
            ..t.operation
        },
        ..t
    }
}

/// The audit trail after finalizing the last open transaction of `op`, if any.
pub open spec fn finalize_trail(trail: Seq<StableTransaction>, op: Operation) -> Seq<StableTransaction> {
    match last_open(trail, op) {
        None => trail,
        Some(i) => trail.update(i, finalized(trail[i])),
    }
}

proof fn lemma_last_locking_push(trail: Seq<StableTransaction>, tx: StableTransaction)
    ensures
        last_locking(trail.push(tx)) == if is_locking(tx.operation.operation) {
            Some(trail.len() as int)
        } else {
            last_locking(trail)
        },
{
    assert(trail.push(tx).drop_last() =~= trail);
}

proof fn lemma_last_locking_update(trail: Seq<StableTransaction>, i: int, tx: StableTransaction)
    requires
        0 <= i < trail.len(),
        tx.operation.operation == trail[i].operation.operation,
    ensures
        last_locking(trail.update(i, tx)) == last_locking(trail),
    decreases trail.len(),
{
    let u = trail.update(i, tx);
    if i == trail.len() - 1 {
        assert(u.drop_last() =~= trail.drop_last());
    } else {
        assert(u.drop_last() =~= trail.drop_last().update(i, tx));
        lemma_last_locking_update(trail.drop_last(), i, tx);
    }
}

proof fn lemma_last_open_is_last_locking(trail: Seq<StableTransaction>, op: Operation)
    requires
        is_locking(op),
        last_locking(trail) matches Some(i) && trail[i].operation.operation == op
            && !trail[i].operation.step.is_final,
    ensures
        last_open(trail, op) == last_locking(trail),
    decreases trail.len(),
{
    lemma_last_locking_bounds(trail);
    if !is_locking(trail.last().operation.operation) {
        lemma_last_locking_bounds(trail.drop_last());
        assert(trail.drop_last()[last_locking(trail)->Some_0] == trail[last_locking(trail)->Some_0]);
        lemma_last_open_is_last_locking(trail.drop_last(), op);
    }
}

/// A deposit or withdrawal step that is not final, recorded at `t`, holds the
/// lock at every time up to `t + MAX_LOCK_DURATION_NS`, for the time that is left.
pub proof fn lemma_open_locking_step_holds_lock(
    trail: Seq<StableTransaction>,
    tx: StableTransaction,
    now_ns: u64,
)
    requires
        is_locking(tx.operation.operation),
        !tx.operation.step.is_final,
        now_ns <= saturating_add(tx.timestamp_ns, MAX_LOCK_DURATION_NS),
    ensures
        remaining_lock(trail.push(tx), now_ns) == Some(
            (saturating_add(tx.timestamp_ns, MAX_LOCK_DURATION_NS) - now_ns) as u64,
        ),
{
    lemma_last_locking_push(trail, tx);
}

/// A deposit and a withdrawal alike hold the lock while in progress: once an
/// open (not final) step of either is recorded at `t`, the lock is held at
/// every time up to `t + MAX_LOCK_DURATION_NS`; when that sum fits a `u64`,
/// for exactly the time left until then.
pub proof fn lemma_deposit_or_withdrawal_in_progress_holds_lock(
    trail: Seq<StableTransaction>,
    tx: StableTransaction,
    now_ns: u64,
)
    requires
        tx.operation.operation == Operation::Deposit || tx.operation.operation == Operation::Withdraw,
        !tx.operation.step.is_final,
        now_ns <= tx.timestamp_ns + MAX_LOCK_DURATION_NS,
    ensures
        remaining_lock(trail.push(tx), now_ns) is Some,
        tx.timestamp_ns + MAX_LOCK_DURATION_NS <= u64::MAX ==> remaining_lock(trail.push(tx), now_ns)
            == Some((tx.timestamp_ns + MAX_LOCK_DURATION_NS - now_ns) as u64),
{
    lemma_last_locking_push(trail, tx);
}

/// Steps of balance refreshes and reward issuance leave the lock as it is.
pub proof fn lemma_other_operations_keep_lock(
    trail: Seq<StableTransaction>,
    tx: StableTransaction,
    now_ns: u64,
)
    requires
        !is_locking(tx.operation.operation),
    ensures
        remaining_lock(trail.push(tx), now_ns) == remaining_lock(trail, now_ns),
{
    lemma_last_locking_push(trail, tx);
    lemma_last_locking_bounds(trail);
}

/// Once the operation that holds the lock is finalized, the lock is free.
pub proof fn lemma_finalize_releases_lock(trail: Seq<StableTransaction>, op: Operation, now_ns: u64)
    requires
        is_locking(op),
        last_locking(trail) matches Some(i) && trail[i].operation.operation == op,
    ensures
        remaining_lock(finalize_trail(trail, op), now_ns) is None,
{
    lemma_last_locking_bounds(trail);
    lemma_last_open_bounds(trail, op);
    let i = last_locking(trail)->Some_0;
    if !trail[i].operation.step.is_final {
        lemma_last_open_is_last_locking(trail, op);
        lemma_last_locking_update(trail, i, finalized(trail[i]));
    } else {
        if let Some(k) = last_open(trail, op) {
            assert(k != i);
            lemma_last_locking_update(trail, k, finalized(trail[k]));
            assert(finalize_trail(trail, op)[i] == trail[i]);
        }
    }
}

/// Finalizing keeps the audit trail's length and every entry but one; that one
/// (the last open step of `op`) only has its step marked final.
pub proof fn lemma_finalize_changes_one_step(trail: Seq<StableTransaction>, op: Operation)
    ensures
        finalize_trail(trail, op).len() == trail.len(),
        last_open(trail, op) matches Some(i) ==> finalize_trail(trail, op)[i] == finalized(trail[i])
            && forall|j: int|
            0 <= j < trail.len() && j != i ==> #[trigger] finalize_trail(trail, op)[j] == trail[j],
        last_open(trail, op) is None ==> finalize_trail(trail, op) == trail,
        last_open(finalize_trail(trail, op), op) != last_open(trail, op) || last_open(trail, op) is None,
{
    lemma_last_open_bounds(trail, op);
    if let Some(i) = last_open(trail, op) {
        let u = finalize_trail(trail, op);
        lemma_last_open_bounds(u, op);
        if let Some(k) = last_open(u, op) {
            assert(k != i);
        }
    }
}

pub struct AdaptorView {
    pub id: Seq<u8>,
    pub balances: Option<ValidatedBalances>,
    pub audit_trail: Seq<StableTransaction>,
}

/// The state of the adaptor.
pub struct KongSwapAdaptor {
    id: PrincipalId,
    balances: Option<ValidatedBalances>,
    audit_trail: Vec<StableTransaction>,
}

impl View for KongSwapAdaptor {
    type V = AdaptorView;

    closed spec fn view(&self) -> AdaptorView {
        AdaptorView { id: self.id@, balances: self.balances, audit_trail: self.audit_trail@ }
    }
}

proof fn lemma_last_locking_bounds(trail: Seq<StableTransaction>)
    ensures
        last_locking(trail) matches Some(i) ==> 0 <= i < trail.len() && is_locking(
            trail[i].operation.operation,
        ),
    decreases trail.len(),
{
    if trail.len() > 0 && !is_locking(trail.last().operation.operation) {
        lemma_last_locking_bounds(trail.drop_last());
    }
}

proof fn lemma_last_open_bounds(trail: Seq<StableTransaction>, op: Operation)
    ensures
        last_open(trail, op) matches Some(i) ==> 0 <= i < trail.len() && trail[i].operation.operation
            == op && !trail[i].operation.step.is_final,
        last_open(trail, op) matches Some(i) ==> forall|j: int|
            i < j < trail.len() ==> !(trail[j].operation.operation == op
                && !trail[j].operation.step.is_final),
        last_open(trail, op) is None ==> forall|j: int|
            0 <= j < trail.len() ==> !(trail[j].operation.operation == op
                && !trail[j].operation.step.is_final),
    decreases trail.len(),
{
    if trail.len() > 0 && !(trail.last().operation.operation == op
        && !trail.last().operation.step.is_final) {
        let d = trail.drop_last();
        lemma_last_open_bounds(d, op);
        assert(trail[trail.len() - 1] == trail.last());
        if let Some(i) = last_open(trail, op) {
            assert forall|j: int| i < j < trail.len() implies !(trail[j].operation.operation == op
                && !trail[j].operation.step.is_final) by {
                if j < trail.len() - 1 {
                    assert(d[j] == trail[j]);
                }
            }
        } else {
            assert forall|j: int| 0 <= j < trail.len() implies !(trail[j].operation.operation == op
                && !trail[j].operation.step.is_final) by {
                if j < trail.len() - 1 {
                    assert(d[j] == trail[j]);
                }
            }
        }
    }
}

impl KongSwapAdaptor {
    /// A fresh adaptor with canister id `id`: not initialized, with an empty audit trail.
    pub fn new(id: PrincipalId) -> (s: KongSwapAdaptor)
        ensures
            s@.id == id@,
            s@.balances is None,
            s@.audit_trail.len() == 0,
    {
        KongSwapAdaptor { id, balances: None, audit_trail: Vec::new() }
    }

    /// An adaptor restored from what was kept of it.
    pub fn from_parts(
        id: PrincipalId,
        balances: Option<ValidatedBalances>,
        audit_trail: Vec<StableTransaction>,
    ) -> (s: KongSwapAdaptor)
        ensures
            s@ == (AdaptorView { id: id@, balances, audit_trail: audit_trail@ }),
    {
        KongSwapAdaptor { id, balances, audit_trail }
    }

    /// The canister id of the adaptor.
    pub fn id(&self) -> (id: PrincipalId)
        ensures
            id@ == self@.id,
    {
        self.id
    }

    /// The account that the adaptor manages the assets in: its main account.
    pub fn manager_account(&self) -> (a: Account)
        ensures
            a.owner@ == self@.id,
            a.subaccount is None,
    {
        Account { owner: self.id, subaccount: None }
    }

    /// Records the two assets and their owners, with balances of zero taken at
    /// `timestamp_ns`; says whether the adaptor had been initialized before
    /// (it is initialized again all the same).
    pub fn initialize(
        &mut self,
        asset_0: ValidatedAsset,
        asset_1: ValidatedAsset,
        owner_account_0: Account,
        owner_account_1: Account,
        timestamp_ns: u64,
    ) -> (was_initialized: bool)
        ensures
            was_initialized == old(self)@.balances is Some,
            final(self)@ == (AdaptorView {
                balances: Some(
                    ValidatedBalances {
                        timestamp_ns,
                        asset_0,
                        asset_1,
                        balance_0_decimals: 0,
                        balance_1_decimals: 0,
                        owner_account_0,
                        owner_account_1,
                    },
                ),
                ..old(self)@
            }),
    {
        let was_initialized = self.balances.is_some();
        let validated_balances = ValidatedBalances::new_with_zero_balances(
            timestamp_ns,
            asset_0,
            asset_1,
            owner_account_0,
            owner_account_1,
        );
        self.balances = Some(validated_balances);
        was_initialized
    }

    /// Whether the adaptor has been initialized.
    pub fn is_initialized(&self) -> (res: bool)
        ensures
            res == self@.balances is Some,
    {
        self.balances.is_some()
    }

    /// A copy of the balances. Only for an initialized adaptor.
    pub fn get_cached_balances(&self) -> (b: ValidatedBalances)
        requires
            self@.balances is Some,
        ensures
            b == self@.balances->Some_0,
    {
        match self.balances {
            Some(b) => b,
            None => {
                assert(false);
                ValidatedBalances::new_with_zero_balances(
                    0,
                    ValidatedAsset::Token {
                        symbol: crate::symbol::ValidatedSymbol::try_from_bytes([0u8; 10]).unwrap(),
                        ledger_canister_id: self.id,
                        ledger_fee_decimals: 0,
                    },
                    ValidatedAsset::Token {
                        symbol: crate::symbol::ValidatedSymbol::try_from_bytes([0u8; 10]).unwrap(),
                        ledger_canister_id: self.id,
                        ledger_fee_decimals: 0,
                    },
                    self.manager_account(),
                    self.manager_account(),
                )
            },
        }
    }

    /// The two managed assets. Only for an initialized adaptor.
    pub fn assets(&self) -> (res: (ValidatedAsset, ValidatedAsset))
        requires
            self@.balances is Some,
        ensures
            res == (self@.balances->Some_0.asset_0, self@.balances->Some_0.asset_1),
    {
        let b = self.get_cached_balances();
        (b.asset_0, b.asset_1)
    }

    /// The accounts of the owners of the two assets. Only for an initialized adaptor.
    pub fn owner_accounts(&self) -> (res: (Account, Account))
        requires
            self@.balances is Some,
        ensures
            res == (
                self@.balances->Some_0.owner_account_0,
                self@.balances->Some_0.owner_account_1,
            ),
    {
        let b = self.get_cached_balances();
        (b.owner_account_0, b.owner_account_1)
    }

    /// The ledgers of the two assets. Only for an initialized adaptor.
    pub fn ledgers(&self) -> (res: (PrincipalId, PrincipalId))
        requires
            self@.balances is Some,
        ensures
            res.0@ == self@.balances->Some_0.asset_0@.ledger,
            res.1@ == self@.balances->Some_0.asset_1@.ledger,
    {
        let b = self.get_cached_balances();
        (b.asset_0.ledger_canister_id(), b.asset_1.ledger_canister_id())
    }

    /// The managed asset whose ledger has the given textual form: asset 0 first.
    /// Only for an initialized adaptor.
    pub fn get_asset_for_ledger(&self, canister_id: &String) -> (res: Option<ValidatedAsset>)
        requires
            self@.balances is Some,
        ensures
            ({
                let b = self@.balances->Some_0;
                res == if principal_text(b.asset_0@.ledger) == canister_id@ {
                    Some(b.asset_0)
                } else if principal_text(b.asset_1@.ledger) == canister_id@ {
                    Some(b.asset_1)
                } else {
                    None
                }
            }),
    {
        let (asset_0, asset_1) = self.assets();
        let wanted = string_chars(canister_id);
        let t0 = asset_0.ledger_canister_id().to_text();
        if chars_equal(&string_chars(&t0), &wanted) {
            return Some(asset_0);
        }
        let t1 = asset_1.ledger_canister_id().to_text();
        if chars_equal(&string_chars(&t1), &wanted) {
            return Some(asset_1);
        }
        None
    }

    /// The symbol of the liquidity-pool token of the two assets: `SYMBOL0_SYMBOL1`.
    /// Only for an initialized adaptor.
    pub fn lp_token(&self) -> (s: String)
        requires
            self@.balances is Some,
        ensures
            s@ == symbol_text(self@.balances->Some_0.asset_0@.symbol) + "_"@ + symbol_text(
                self@.balances->Some_0.asset_1@.symbol,
            ),
    {
        let (asset_0, asset_1) = self.assets();
        let mut out = string_chars(&asset_0.symbol());
        push_str(&mut out, "_");
        push_all(&mut out, &string_chars(&asset_1.symbol()));
        string_from_chars(&out)
    }

    /// Replaces the balances of an initialized adaptor by what `f` makes of them;
    /// an adaptor that is not initialized is left as it is.
    pub fn with_balances_mut<F: FnOnce(ValidatedBalances) -> ValidatedBalances>(&mut self, f: F)
        requires
            forall|b: ValidatedBalances| f.requires((b,)),
        ensures
            final(self)@.id == old(self)@.id,
            final(self)@.audit_trail == old(self)@.audit_trail,
            match old(self)@.balances {
                None => final(self)@.balances is None,
                Some(b) => final(self)@.balances matches Some(nb) && f.ensures((b,), nb),
            },
    {
        match self.balances {
            None => {},
            Some(b) => {
                let nb = f(b);
                self.balances = Some(nb);
            },
        }
    }

    /// Records balances taken at `timestamp_ns`, if the adaptor is initialized.
    pub fn set_balances(&mut self, balance_0_decimals: u64, balance_1_decimals: u64, timestamp_ns: u64)
        ensures
            final(self)@.id == old(self)@.id,
            final(self)@.audit_trail == old(self)@.audit_trail,
            match old(self)@.balances {
                None => final(self)@.balances is None,
                Some(b) => final(self)@.balances == Some(
                    ValidatedBalances { balance_0_decimals, balance_1_decimals, timestamp_ns, ..b },
                ),
            },
    {
        match self.balances {
            None => {},
            Some(b) => {
                let mut nb = b;
                nb.set(balance_0_decimals, balance_1_decimals, timestamp_ns);
                self.balances = Some(nb);
            },
        }
    }

    /// Takes the symbol and fee of `asset` into asset `asset_id` (0 or 1), if the
    /// adaptor is initialized.
    pub fn refresh_asset(&mut self, asset_id: usize, asset: ValidatedAsset)
        ensures
            final(self)@.id == old(self)@.id,
            final(self)@.audit_trail == old(self)@.audit_trail,
            old(self)@.balances is None ==> final(self)@.balances is None,
            old(self)@.balances is Some ==> final(self)@.balances is Some,
            old(self)@.balances matches Some(b) ==> {
                let nb = final(self)@.balances->Some_0;
                &&& asset_id == 0 ==> nb.asset_0@ == crate::balances::refreshed(b.asset_0@, asset@)
                    && nb.asset_1 == b.asset_1
                &&& asset_id == 1 ==> nb.asset_1@ == crate::balances::refreshed(b.asset_1@, asset@)
                    && nb.asset_0 == b.asset_0
                &&& asset_id > 1 ==> nb.asset_0 == b.asset_0 && nb.asset_1 == b.asset_1
                &&& nb.timestamp_ns == b.timestamp_ns
                &&& nb.balance_0_decimals == b.balance_0_decimals
                &&& nb.balance_1_decimals == b.balance_1_decimals
                &&& nb.owner_account_0 == b.owner_account_0
                &&& nb.owner_account_1 == b.owner_account_1
            },
    {
        match self.balances {
            None => {},
            Some(b) => {
                let mut nb = b;
                let _changed = nb.refresh_asset(asset_id, asset);
                self.balances = Some(nb);
            },
        }
    }

    /// The audit trail, oldest first.
    pub fn get_audit_trail(&self) -> (t: &Vec<StableTransaction>)
        ensures
            t@ == self@.audit_trail,
    {
        &self.audit_trail
    }

    /// Appends a transaction to the audit trail; returns its index.
    pub fn push_audit_trail_transaction(&mut self, transaction: StableTransaction) -> (index: Option<u64>)
        ensures
            final(self)@ == (AdaptorView {
                audit_trail: old(self)@.audit_trail.push(transaction),
                ..old(self)@
            }),
            index == Some(old(self)@.audit_trail.len() as u64),
    {
        let index = self.audit_trail.len() as u64;
        self.audit_trail.push(transaction);
        Some(index)
    }

    /// Replaces the transaction at `index`; an index past the end changes
    /// nothing. Says whether the index was valid.
    pub fn set_audit_trail_transaction_result(&mut self, index: u64, transaction: StableTransaction) -> (done: bool)
        ensures
            done == (index < old(self)@.audit_trail.len()),
            final(self)@ == if done {
                AdaptorView {
                    audit_trail: old(self)@.audit_trail.update(index as int, transaction),
                    ..old(self)@
                }
            } else {
                old(self)@
            },
    {
        if (index as u128) < (self.audit_trail.len() as u128) {
            let i = index as usize;
            let _ = self.audit_trail.remove(i);
            self.audit_trail.insert(i, transaction);
            assert(self.audit_trail@ =~= old(self).audit_trail@.update(index as int, transaction));
            true
        } else {
            false
        }
    }

    /// Marks final the last transaction of the context's operation that is not
    /// final yet; says whether there was one.
    pub fn finalize_audit_trail_transaction(&mut self, context: OperationContext) -> (found: bool)
        ensures
            found == (last_open(old(self)@.audit_trail, context@.0) is Some),
            final(self)@ == (AdaptorView {
                audit_trail: finalize_trail(old(self)@.audit_trail, context@.0),
                ..old(self)@
            }),
    {
        let op = context.operation();
        let ghost trail = self.audit_trail@;
        let mut i: usize = self.audit_trail.len();
        assert(trail.take(i as int) =~= trail);
        while i > 0
            invariant
                i <= self.audit_trail@.len(),
                self.audit_trail@ == trail,
                trail == old(self).audit_trail@,
                op == context@.0,
                self.id == old(self).id,
                self.balances == old(self).balances,
                last_open(trail, op) == last_open(trail.take(i as int), op),
            decreases i,
        {
            let t = &self.audit_trail[i - 1];
            assert(trail.take(i as int).last() == trail[i - 1]);
            assert(trail.take(i as int).drop_last() =~= trail.take(i - 1));
            if t.operation.operation == op && !t.operation.step.is_final {
                let idx = i - 1;
                assert(last_open(trail.take(i as int), op) == Some(idx as int));
                let mut tx = self.audit_trail.remove(idx);
                tx.operation.step.is_final = true;
                self.audit_trail.insert(idx, tx);
                assert(self.audit_trail@ =~= trail.update(idx as int, finalized(trail[idx as int])));
                return true;
            }
            i = i - 1;
        }
        assert(trail.take(0).len() == 0);
        false
    }

    /// How much longer the lock is held at `now_ns`, if it is held.
    pub fn get_remaining_lock_duration_ns(&self, now_ns: u64) -> (res: Option<u64>)
        ensures
            res == remaining_lock(self@.audit_trail, now_ns),
    {
        let ghost trail = self.audit_trail@;
        let mut i: usize = self.audit_trail.len();
        assert(trail.take(i as int) =~= trail);
        while i > 0
            invariant
                i <= trail.len(),
                trail == self.audit_trail@,
                last_locking(trail) == last_locking(trail.take(i as int)),
            decreases i,
        {
            assert(trail.take(i as int).last() == trail[i - 1]);
            assert(trail.take(i as int).drop_last() =~= trail.take(i - 1));
            let t = &self.audit_trail[i - 1];
            let op = t.operation.operation;
            if op == Operation::Deposit || op == Operation::Withdraw {
                if t.operation.step.is_final {
                    return None;
                }
                let expiry = t.timestamp_ns.saturating_add(MAX_LOCK_DURATION_NS);
                if now_ns > expiry {
                    return None;
                }
                return Some(expiry - now_ns);
            }
            i = i - 1;
        }
        assert(trail.take(0).len() == 0);
        None
    }

    /// Refuses with a `TemporarilyUnavailable` error while the lock is held.
    pub fn check_state_lock(&self, now_ns: u64) -> (res: Result<(), Vec<Error>>)
        ensures
            match remaining_lock(self@.audit_trail, now_ns) {
                None => res is Ok,
                Some(r) => res matches Err(errs) && lock_refusal(errs@, r),
            },
    {
        if let Some(remaining_lock_duration_ns) = self.get_remaining_lock_duration_ns(now_ns) {
            let mut msg = str_chars("Canister state is locked. Please try again in ");
            let d = u64_decimal(remaining_lock_duration_ns / NS_IN_SECOND);
            push_all(&mut msg, &d);
            push_str(&mut msg, " seconds.");
            let mut errs: Vec<Error> = Vec::new();
            errs.push(Error::new_temporarily_unavailable(string_from_chars(&msg)));
            return Err(errs);
        }
        Ok(())
    }
}

} // verus!
