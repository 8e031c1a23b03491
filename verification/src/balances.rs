//! The balances that the adaptor manages, per asset.
use crate::natural::{decode_error_message, decode_nat_to_u64, digit_base, significant_len, NatValue};
use crate::text::{chars_equal, join, join_chars, push_all, push_str, str_chars, string_chars, string_from_chars, u64_decimal, decimal};
use crate::symbol::{lemma_symbol_bytes_round_trip, nul_padded, valid_symbol_bytes};
use crate::types::{Account, Asset};
use crate::validation::{
    asset_validation, asset_views, assets_validation, validate_assets, AssetView, ValidatedAsset,
};
use vstd::prelude::*;

verus! {

/// The two managed assets, what the adaptor holds of each, and whose they are.
#[derive(Clone, Copy, Debug, PartialEq, Eq)]
pub struct ValidatedBalances {
    pub timestamp_ns: u64,
    pub asset_0: ValidatedAsset,
    pub asset_1: ValidatedAsset,
    pub balance_0_decimals: u64,
    pub balance_1_decimals: u64,
    pub owner_account_0: Account,
    pub owner_account_1: Account,
}

/// An asset after a refresh with `new`: the symbol and fee of `new`, the ledger of `old`.
pub open spec fn refreshed(old: AssetView, new: AssetView) -> AssetView {
    AssetView { symbol: new.symbol, ledger: old.ledger, fee: new.fee }
}

impl ValidatedBalances {
    /// Balances taken at `timestamp_ns`.
    pub fn new(
        timestamp_ns: u64,
        asset_0: ValidatedAsset,
        asset_1: ValidatedAsset,
        balance_0_decimals: u64,
        balance_1_decimals: u64,
        owner_account_0: Account,
        owner_account_1: Account,
    ) -> (b: ValidatedBalances)
        ensures
            b == (ValidatedBalances {
                timestamp_ns,
                asset_0,
                asset_1,
                balance_0_decimals,
                balance_1_decimals,
                owner_account_0,
                owner_account_1,
            }),
    {
        ValidatedBalances {
            timestamp_ns,
            asset_0,
            asset_1,
            balance_0_decimals,
            balance_1_decimals,
            owner_account_0,
            owner_account_1,
        }
    }

    /// Balances of zero for both assets, taken at `timestamp_ns`.
    pub fn new_with_zero_balances(
        timestamp_ns: u64,
        asset_0: ValidatedAsset,
        asset_1: ValidatedAsset,
        owner_account_0: Account,
        owner_account_1: Account,
    ) -> (b: ValidatedBalances)
        ensures
            b == (ValidatedBalances {
                timestamp_ns,
                asset_0,
                asset_1,
                balance_0_decimals: 0,
                balance_1_decimals: 0,
                owner_account_0,
                owner_account_1,
            }),
    {
        ValidatedBalances {
            timestamp_ns,
            balance_0_decimals: 0,
            balance_1_decimals: 0,
            asset_0,
            asset_1,
            owner_account_0,
            owner_account_1,
        }
    }

    /// Records new balances for both assets, taken at `timestamp_ns`.
    pub fn set(&mut self, balance_0_decimals: u64, balance_1_decimals: u64, timestamp_ns: u64)
        ensures
            *final(self) == (ValidatedBalances {
                balance_0_decimals,
                balance_1_decimals,
                timestamp_ns,
                ..*old(self)
            }),
    {
        self.balance_0_decimals = balance_0_decimals;
        self.balance_1_decimals = balance_1_decimals;
        self.timestamp_ns = timestamp_ns;
    }

    /// Takes the symbol and the ledger fee of `new_asset` into asset `asset_id`
    /// (0 or 1); the ledger stays. Any other `asset_id` changes nothing. Says
    /// whether the asset changed: whether its symbol or its fee differed.
    pub fn refresh_asset(&mut self, asset_id: usize, new_asset: ValidatedAsset) -> (changed: bool)
        ensures
            asset_id == 0 ==> changed == (old(self).asset_0@.symbol != new_asset@.symbol
                || old(self).asset_0@.fee != new_asset@.fee),
            asset_id == 1 ==> changed == (old(self).asset_1@.symbol != new_asset@.symbol
                || old(self).asset_1@.fee != new_asset@.fee),
            asset_id > 1 ==> !changed,
            asset_id == 0 ==> final(self).asset_0@ == refreshed(old(self).asset_0@, new_asset@)
                && final(self).asset_1 == old(self).asset_1,
            asset_id == 1 ==> final(self).asset_1@ == refreshed(old(self).asset_1@, new_asset@)
                && final(self).asset_0 == old(self).asset_0,
            asset_id > 1 ==> final(self).asset_0 == old(self).asset_0 && final(self).asset_1
                == old(self).asset_1,
            final(self).timestamp_ns == old(self).timestamp_ns,
            final(self).balance_0_decimals == old(self).balance_0_decimals,
            final(self).balance_1_decimals == old(self).balance_1_decimals,
            final(self).owner_account_0 == old(self).owner_account_0,
            final(self).owner_account_1 == old(self).owner_account_1,
    {
        let new_symbol = new_asset.validated_symbol();
        let new_fee = new_asset.ledger_fee_decimals();
        if asset_id == 0 {
            let mut asset = self.asset_0;
            let symbol_changed = asset.set_symbol(new_symbol);
            let fee_changed = asset.set_ledger_fee_decimals(new_fee);
            self.asset_0 = asset;
            symbol_changed || fee_changed
        } else if asset_id == 1 {
            let mut asset = self.asset_1;
            let symbol_changed = asset.set_symbol(new_symbol);
            let fee_changed = asset.set_ledger_fee_decimals(new_fee);
            self.asset_1 = asset;
            symbol_changed || fee_changed
        } else {
            false
        }
    }
}

/// The parties that hold an asset.
#[derive(Clone, Copy, Debug, PartialEq, Eq, Structural)]
pub enum Party {
    TreasuryOwner,
    TreasuryManager,
    External,
}

/// What a party holds of an asset, and in which account.
#[derive(Clone, Debug, PartialEq, Eq)]
pub struct Balance {
    pub amount_decimals: NatValue,
    pub account: Option<Account>,
}

/// The balances of the parties that hold an asset.
#[derive(Clone, Debug, PartialEq, Eq)]
pub struct BalancesForAsset {
    pub party_to_balance: Option<Vec<(Party, Balance)>>,
}

/// The balances that the treasury manager reports, per asset; each asset
/// occurs at most once, as in a map (see `map_shaped`).
#[derive(Clone, Debug, PartialEq, Eq)]
pub struct Balances {
    pub timestamp_ns: u64,
    pub asset_to_balances: Option<Vec<(Asset, BalancesForAsset)>>,
}

/// The asset as the treasury-manager interface describes it.
pub open spec fn asset_of(a: ValidatedAsset) -> (Seq<char>, Seq<u8>, nat) {
    (crate::symbol::symbol_text(a@.symbol), a@.ledger, a@.fee as nat)
}

/// The symbol, ledger and fee of an interface asset.
pub open spec fn asset_parts(a: Asset) -> (Seq<char>, Seq<u8>, nat) {
    match a {
        Asset::Token { symbol, ledger_canister_id, ledger_fee_decimals } => (
            symbol@,
            ledger_canister_id@,
            ledger_fee_decimals.value(),
        ),
    }
}

impl Asset {
    /// The interface form of a validated asset.
    pub fn from_validated(value: ValidatedAsset) -> (a: Asset)
        ensures
            asset_parts(a) == asset_of(value),
    {
        Asset::Token {
            symbol: value.symbol(),
            ledger_canister_id: value.ledger_canister_id(),
            ledger_fee_decimals: NatValue::from_u64(value.ledger_fee_decimals()),
        }
    }
}

/// The one balance that an asset's entry reports: the treasury manager's.
pub open spec fn manager_entry(b: BalancesForAsset, amount: u64, account: Account) -> bool {
    b.party_to_balance matches Some(v) && v@.len() == 1 && v@[0].0 == Party::TreasuryManager
        && v@[0].1.amount_decimals.value() == amount && v@[0].1.account == Some(account)
}

/// Whether text `a` comes before text `b`, character by character (a proper
/// prefix comes first), as `String`s are ordered.
pub open spec fn chars_lt(a: Seq<char>, b: Seq<char>) -> bool
    decreases a.len(),
{
    if a.len() == 0 {
        b.len() > 0
    } else if b.len() == 0 {
        false
    } else if a[0] != b[0] {
        a[0] < b[0]
    } else {
        chars_lt(a.drop_first(), b.drop_first())
    }
}

/// Whether bytes `a` come before bytes `b`, byte by byte (a proper prefix comes first).
pub open spec fn bytes_lt(a: Seq<u8>, b: Seq<u8>) -> bool
    decreases a.len(),
{
    if a.len() == 0 {
        b.len() > 0
    } else if b.len() == 0 {
        false
    } else if a[0] != b[0] {
        a[0] < b[0]
    } else {
        bytes_lt(a.drop_first(), b.drop_first())
    }
}

/// Whether principal `a` comes before principal `b`: the shorter first, then by bytes.
pub open spec fn principal_lt(a: Seq<u8>, b: Seq<u8>) -> bool {
    a.len() < b.len() || (a.len() == b.len() && bytes_lt(a, b))
}

/// Whether asset `a` comes before asset `b` (each given by its symbol, ledger
/// and fee), in the order of their fields.
pub open spec fn asset_key_lt(a: (Seq<char>, Seq<u8>, nat), b: (Seq<char>, Seq<u8>, nat)) -> bool {
    chars_lt(a.0, b.0) || (a.0 == b.0 && (principal_lt(a.1, b.1) || (a.1 == b.1 && a.2 < b.2)))
}

proof fn lemma_chars_lt_irreflexive(a: Seq<char>)
    ensures
        !chars_lt(a, a),
    decreases a.len(),
{
    if a.len() > 0 {
        lemma_chars_lt_irreflexive(a.drop_first());
    }
}

proof fn lemma_bytes_lt_irreflexive(a: Seq<u8>)
    ensures
        !bytes_lt(a, a),
    decreases a.len(),
{
    if a.len() > 0 {
        lemma_bytes_lt_irreflexive(a.drop_first());
    }
}

/// No asset comes before itself.
pub proof fn lemma_asset_key_lt_irreflexive(k: (Seq<char>, Seq<u8>, nat))
    ensures
        !asset_key_lt(k, k),
{
    lemma_chars_lt_irreflexive(k.0);
    lemma_bytes_lt_irreflexive(k.1);
}

proof fn lemma_chars_lt_total(a: Seq<char>, b: Seq<char>)
    ensures
        a != b ==> chars_lt(a, b) || chars_lt(b, a),
    decreases a.len(),
{
    if a.len() > 0 && b.len() > 0 && a[0] == b[0] {
        lemma_chars_lt_total(a.drop_first(), b.drop_first());
        if a.drop_first() == b.drop_first() {
            assert(a =~= seq![a[0]] + a.drop_first());
            assert(b =~= seq![b[0]] + b.drop_first());
        }
    } else if a.len() == 0 && b.len() == 0 {
        assert(a =~= b);
    }
}

proof fn lemma_bytes_lt_total(a: Seq<u8>, b: Seq<u8>)
    ensures
        a != b ==> bytes_lt(a, b) || bytes_lt(b, a),
    decreases a.len(),
{
    if a.len() > 0 && b.len() > 0 && a[0] == b[0] {
        lemma_bytes_lt_total(a.drop_first(), b.drop_first());
        if a.drop_first() == b.drop_first() {
            assert(a =~= seq![a[0]] + a.drop_first());
            assert(b =~= seq![b[0]] + b.drop_first());
        }
    } else if a.len() == 0 && b.len() == 0 {
        assert(a =~= b);
    }
}

/// Of two different assets, one comes before the other.
pub proof fn lemma_asset_key_lt_total(a: (Seq<char>, Seq<u8>, nat), b: (Seq<char>, Seq<u8>, nat))
    ensures
        a != b ==> asset_key_lt(a, b) || asset_key_lt(b, a),
{
    lemma_chars_lt_total(a.0, b.0);
    lemma_bytes_lt_total(a.1, b.1);
}

/// Whether each party occurs at most once among an asset's balances.
pub open spec fn parties_distinct(x: BalancesForAsset) -> bool {
    x.party_to_balance matches Some(p) ==> forall|i: int, j: int|
        0 <= i < j < p@.len() ==> #[trigger] p@[i].0 != #[trigger] p@[j].0
}

/// Whether the report has the shape of a map keyed by asset, and of one keyed
/// by party for each asset: the assets in ascending order, so each occurs
/// once, and each party once per asset.
pub open spec fn map_shaped(b: Balances) -> bool {
    &&& b.asset_to_balances matches Some(e) && forall|i: int, j: int|
        0 <= i < j < e@.len() ==> asset_key_lt(asset_parts(#[trigger] e@[i].0), asset_parts(#[trigger] e@[j].0))
            && asset_parts(e@[i].0) != asset_parts(e@[j].0)
    &&& b.asset_to_balances matches Some(e) && forall|i: int|
        0 <= i < e@.len() ==> parties_distinct(#[trigger] e@[i].1)
}

/// Each asset's balance is reported with its own owner: in a report of `v`,
/// every entry for asset 1 is the treasury manager's `balance_1_decimals` in
/// `owner_account_1`, and, when the two assets differ, every entry for asset 0
/// is the treasury manager's `balance_0_decimals` in `owner_account_0`. Both
/// assets are reported.
pub proof fn lemma_report_pairs_each_asset_with_its_owner(b: Balances, v: ValidatedBalances)
    requires
        is_report_of(b, v),
    ensures
        b.asset_to_balances matches Some(e) && {
            &&& exists|k: int| 0 <= k < e@.len() && asset_parts(#[trigger] e@[k].0) == asset_of(v.asset_0)
            &&& exists|k: int| 0 <= k < e@.len() && asset_parts(#[trigger] e@[k].0) == asset_of(v.asset_1)
            &&& forall|k: int| 0 <= k < e@.len() && asset_parts(#[trigger] e@[k].0) == asset_of(v.asset_1)
                ==> (e@[k].1.party_to_balance matches Some(p) && p@.len() == 1 && p@[0].0
                == Party::TreasuryManager && p@[0].1.amount_decimals.value() == v.balance_1_decimals
                && p@[0].1.account == Some(v.owner_account_1))
            &&& forall|k: int| 0 <= k < e@.len() && asset_parts(#[trigger] e@[k].0) == asset_of(v.asset_0)
                && asset_of(v.asset_0) != asset_of(v.asset_1) ==> (e@[k].1.party_to_balance matches Some(p)
                && p@.len() == 1 && p@[0].0 == Party::TreasuryManager && p@[0].1.amount_decimals.value()
                == v.balance_0_decimals && p@[0].1.account == Some(v.owner_account_0))
        },
{
    let k0 = asset_of(v.asset_0);
    let k1 = asset_of(v.asset_1);
    lemma_asset_key_lt_total(k0, k1);
    lemma_asset_key_lt_irreflexive(k0);
    lemma_asset_key_lt_irreflexive(k1);
    let e = b.asset_to_balances->Some_0@;
    if asset_key_lt(k0, k1) {
        assert(asset_parts(e[0].0) == k0);
        assert(asset_parts(e[1].0) == k1);
    } else if asset_key_lt(k1, k0) {
        assert(asset_parts(e[0].0) == k1);
        assert(asset_parts(e[1].0) == k0);
    } else {
        assert(asset_parts(e[0].0) == k0);
        assert(k0 == k1);
    }
}

/// Whether `b` reports `v`: the same time, and for each of the two assets, the
/// asset with the treasury manager's balance in the owner's account; the
/// assets in their order, as in a map keyed by asset (one entry, with the
/// balance of asset 1, when the two assets are the same).
pub open spec fn is_report_of(b: Balances, v: ValidatedBalances) -> bool {
    &&& b.timestamp_ns == v.timestamp_ns
    &&& b.asset_to_balances matches Some(e) && {
        let k0 = asset_of(v.asset_0);
        let k1 = asset_of(v.asset_1);
        if asset_key_lt(k0, k1) {
            &&& e@.len() == 2
            &&& asset_parts(e@[0].0) == k0
            &&& manager_entry(e@[0].1, v.balance_0_decimals, v.owner_account_0)
            &&& asset_parts(e@[1].0) == k1
            &&& manager_entry(e@[1].1, v.balance_1_decimals, v.owner_account_1)
        } else if asset_key_lt(k1, k0) {
            &&& e@.len() == 2
            &&& asset_parts(e@[0].0) == k1
            &&& manager_entry(e@[0].1, v.balance_1_decimals, v.owner_account_1)
            &&& asset_parts(e@[1].0) == k0
            &&& manager_entry(e@[1].1, v.balance_0_decimals, v.owner_account_0)
        } else {
            &&& e@.len() == 1
            &&& asset_parts(e@[0].0) == k0
            &&& manager_entry(e@[0].1, v.balance_1_decimals, v.owner_account_1)
        }
    }
}

fn chars_precede(a: &Vec<char>, b: &Vec<char>) -> (res: bool)
    ensures
        res == chars_lt(a@, b@),
{
    let mut i: usize = 0;
    assert(a@.skip(0) =~= a@ && b@.skip(0) =~= b@);
    while i < a.len() && i < b.len() && a[i] == b[i]
        invariant
            i <= a@.len(),
            i <= b@.len(),
            chars_lt(a@, b@) == chars_lt(a@.skip(i as int), b@.skip(i as int)),
        decreases a@.len() - i,
    {
        proof {
            let (x, y) = (a@.skip(i as int), b@.skip(i as int));
            assert(x[0] == a@[i as int] && y[0] == b@[i as int]);
            assert(x.drop_first() =~= a@.skip(i + 1));
            assert(y.drop_first() =~= b@.skip(i + 1));
        }
        i = i + 1;
    }
    proof {
        let (x, y) = (a@.skip(i as int), b@.skip(i as int));
        if i < a@.len() && i < b@.len() {
            assert(x[0] == a@[i as int] && y[0] == b@[i as int]);
        }
    }
    if i == a.len() {
        i < b.len()
    } else if i == b.len() {
        false
    } else {
        a[i] < b[i]
    }
}

fn bytes_precede(a: &Vec<u8>, b: &Vec<u8>) -> (res: bool)
    ensures
        res == bytes_lt(a@, b@),
{
    let mut i: usize = 0;
    assert(a@.skip(0) =~= a@ && b@.skip(0) =~= b@);
    while i < a.len() && i < b.len() && a[i] == b[i]
        invariant
            i <= a@.len(),
            i <= b@.len(),
            bytes_lt(a@, b@) == bytes_lt(a@.skip(i as int), b@.skip(i as int)),
        decreases a@.len() - i,
    {
        proof {
            let (x, y) = (a@.skip(i as int), b@.skip(i as int));
            assert(x[0] == a@[i as int] && y[0] == b@[i as int]);
            assert(x.drop_first() =~= a@.skip(i + 1));
            assert(y.drop_first() =~= b@.skip(i + 1));
        }
        i = i + 1;
    }
    proof {
        let (x, y) = (a@.skip(i as int), b@.skip(i as int));
        if i < a@.len() && i < b@.len() {
            assert(x[0] == a@[i as int] && y[0] == b@[i as int]);
        }
    }
    if i == a.len() {
        i < b.len()
    } else if i == b.len() {
        false
    } else {
        a[i] < b[i]
    }
}

/// Whether asset `a` comes before asset `b` in the order of the report's map.
fn asset_precedes(a: &ValidatedAsset, b: &ValidatedAsset) -> (res: bool)
    ensures
        res == asset_key_lt(asset_of(*a), asset_of(*b)),
{
    let sa = string_chars(&a.symbol());
    let sb = string_chars(&b.symbol());
    if chars_precede(&sa, &sb) {
        return true;
    }
    if !chars_equal(&sa, &sb) {
        return false;
    }
    let la = a.ledger_canister_id().as_bytes();
    let lb = b.ledger_canister_id().as_bytes();
    if la.len() < lb.len() || (la.len() == lb.len() && bytes_precede(&la, &lb)) {
        return true;
    }
    if !a.ledger_canister_id().same_as(&b.ledger_canister_id()) {
        return false;
    }
    a.ledger_fee_decimals() < b.ledger_fee_decimals()
}

fn manager_balance(amount: u64, account: Account) -> (b: BalancesForAsset)
    ensures
        manager_entry(b, amount, account),
{
    let mut parties: Vec<(Party, Balance)> = Vec::new();
    parties.push(
        (
            Party::TreasuryManager,
            Balance { amount_decimals: NatValue::from_u64(amount), account: Some(account) },
        ),
    );
    BalancesForAsset { party_to_balance: Some(parties) }
}

impl Balances {
    /// The report of validated balances: for each asset, the treasury manager's
    /// balance in the owner's account.
    pub fn from_validated(value: ValidatedBalances) -> (b: Balances)
        ensures
            is_report_of(b, value),
            map_shaped(b),
    {
        proof {
            lemma_asset_key_lt_irreflexive(asset_of(value.asset_0));
            lemma_asset_key_lt_irreflexive(asset_of(value.asset_1));
        }
        let mut entries: Vec<(Asset, BalancesForAsset)> = Vec::new();
        let entry_0 = (
            Asset::from_validated(value.asset_0),
            manager_balance(value.balance_0_decimals, value.owner_account_0),
        );
        let entry_1 = (
            Asset::from_validated(value.asset_1),
            manager_balance(value.balance_1_decimals, value.owner_account_1),
        );
        if asset_precedes(&value.asset_0, &value.asset_1) {
            entries.push(entry_0);
            entries.push(entry_1);
        } else if asset_precedes(&value.asset_1, &value.asset_0) {
            entries.push(entry_1);
            entries.push(entry_0);
        } else {
            entries.push((entry_0.0, entry_1.1));
        }
        Balances { timestamp_ns: value.timestamp_ns, asset_to_balances: Some(entries) }
    }
}

/// Every balance of a report with its asset, asset by asset, party by party.
pub open spec fn flat_balances(entries: Seq<(Asset, BalancesForAsset)>) -> Seq<(Asset, Balance)>
    decreases entries.len(),
{
    if entries.len() == 0 {
        Seq::empty()
    } else {
        let last = entries.last();
        let parties: Seq<(Party, Balance)> = match last.1.party_to_balance {
            Some(v) => v@,
            None => Seq::empty(),
        };
        flat_balances(entries.drop_last()) + parties.map_values(
            |p: (Party, Balance)| (last.0, p.1),
        )
    }
}

/// What a reported balance gives: its amount and account, or the problem with it.
pub open spec fn balance_outcome(b: Balance) -> Result<(u64, Account), Seq<char>> {
    match b.account {
        None => Err("Balance account is missing."@),
        Some(a) => if b.amount_decimals.value() >= digit_base() {
            Err(
                decode_error_message(
                    b.amount_decimals.value(),
                    significant_len(b.amount_decimals.digits@),
                ),
            )
        } else {
            Ok((b.amount_decimals.value() as u64, a))
        },
    }
}

/// The problems among the outcomes, in order.
pub open spec fn problems_of<T>(s: Seq<Result<T, Seq<char>>>) -> Seq<Seq<char>>
    decreases s.len(),
{
    if s.len() == 0 {
        Seq::empty()
    } else {
        match s.last() {
            Ok(_) => problems_of(s.drop_last()),
            Err(e) => problems_of(s.drop_last()).push(e),
        }
    }
}

/// The successes among the outcomes, in order.
pub open spec fn successes_of<T>(s: Seq<Result<T, Seq<char>>>) -> Seq<T>
    decreases s.len(),
{
    if s.len() == 0 {
        Seq::empty()
    } else {
        match s.last() {
            Ok(v) => successes_of(s.drop_last()).push(v),
            Err(_) => successes_of(s.drop_last()),
        }
    }
}

proof fn lemma_outcomes_split<T>(s: Seq<Result<T, Seq<char>>>)
    ensures
        problems_of(s).len() + successes_of(s).len() == s.len(),
        problems_of(s).len() == 0 ==> successes_of(s).len() == s.len(),
    decreases s.len(),
{
    if s.len() > 0 {
        lemma_outcomes_split(s.drop_last());
    }
}

/// The amounts and accounts of the report's balances, or their problems.
pub open spec fn balance_outcomes(entries: Seq<(Asset, BalancesForAsset)>) -> Seq<
    Result<(u64, Account), Seq<char>>,
> {
    flat_balances(entries).map_values(|e: (Asset, Balance)| balance_outcome(e.1))
}

/// The validated assets of the report's balances, or their problems.
pub open spec fn asset_outcomes(entries: Seq<(Asset, BalancesForAsset)>) -> Seq<
    Result<AssetView, Seq<char>>,
> {
    flat_balances(entries).map_values(|e: (Asset, Balance)| asset_validation(e.0))
}

/// What validating a balance report gives: its time, the two assets, and
/// the first two balances' amounts and accounts; or the refusal's message.
pub open spec fn balances_validation(b: Balances) -> Result<
    (u64, AssetView, AssetView, (u64, Account), (u64, Account)),
    Seq<char>,
> {
    let entries: Seq<(Asset, BalancesForAsset)> = match b.asset_to_balances {
        Some(v) => v@,
        None => Seq::empty(),
    };
    if entries.len() != 2 {
        Err("Expected exactly two balances, got "@ + decimal(entries.len()) + "."@)
    } else {
        let amount_problems = problems_of(balance_outcomes(entries));
        let asset_problems = problems_of(asset_outcomes(entries));
        if amount_problems.len() > 0 || asset_problems.len() > 0 {
            Err(
                "Failed to validate balances:\n amount errors:\n "@ + join(amount_problems, ", "@)
                    + "; asset errors: "@ + join(asset_problems, ", "@) + "."@,
            )
        } else {
            match assets_validation(successes_of(asset_outcomes(entries))) {
                Err(e) => Err(e),
                Ok((a0, a1)) => {
                    let amounts = successes_of(balance_outcomes(entries));
                    Ok((b.timestamp_ns, a0, a1, amounts[0], amounts[1]))
                },
            }
        }
    }
}

/// Validating the report of validated balances gives those balances back,
/// when the symbols of both assets are NUL-padded, the assets a valid pair,
/// and asset 0 comes before asset 1 in the order of the report's map.
pub proof fn lemma_report_round_trip(b: Balances, v: ValidatedBalances)
    requires
        is_report_of(b, v),
        valid_symbol_bytes(v.asset_0@.symbol),
        valid_symbol_bytes(v.asset_1@.symbol),
        nul_padded(v.asset_0@.symbol),
        nul_padded(v.asset_1@.symbol),
        assets_validation(seq![v.asset_0@, v.asset_1@]) is Ok,
        asset_key_lt(asset_of(v.asset_0), asset_of(v.asset_1)),
    ensures
        balances_validation(b) == Ok::<
            (u64, AssetView, AssetView, (u64, Account), (u64, Account)),
            Seq<char>,
        >(
            (
                v.timestamp_ns,
                v.asset_0@,
                v.asset_1@,
                (v.balance_0_decimals, v.owner_account_0),
                (v.balance_1_decimals, v.owner_account_1),
            ),
        ),
{
    let e = b.asset_to_balances->Some_0@;
    let p0 = e[0].1.party_to_balance->Some_0@;
    let p1 = e[1].1.party_to_balance->Some_0@;
    assert(e.drop_last().drop_last() =~= Seq::<(Asset, BalancesForAsset)>::empty());
    let f = flat_balances(e);
    assert(p0.map_values(|p: (Party, Balance)| (e[0].0, p.1)) =~= seq![(e[0].0, p0[0].1)]);
    assert(p1.map_values(|p: (Party, Balance)| (e[1].0, p.1)) =~= seq![(e[1].0, p1[0].1)]);
    let d = e.drop_last();
    assert(d.last() == e[0]);
    assert(flat_balances(d.drop_last()) =~= Seq::<(Asset, Balance)>::empty());
    assert(flat_balances(d) =~= seq![(e[0].0, p0[0].1)]);
    assert(f =~= seq![(e[0].0, p0[0].1), (e[1].0, p1[0].1)]);
    lemma_symbol_bytes_round_trip(v.asset_0@.symbol);
    lemma_symbol_bytes_round_trip(v.asset_1@.symbol);
    let bo = balance_outcomes(e);
    let ao = asset_outcomes(e);
    assert(bo =~= seq![
        Ok::<(u64, Account), Seq<char>>((v.balance_0_decimals, v.owner_account_0)),
        Ok::<(u64, Account), Seq<char>>((v.balance_1_decimals, v.owner_account_1)),
    ]);
    assert(ao[0] == Ok::<AssetView, Seq<char>>(v.asset_0@));
    assert(ao[1] == Ok::<AssetView, Seq<char>>(v.asset_1@));
    assert(ao =~= seq![
        Ok::<AssetView, Seq<char>>(v.asset_0@),
        Ok::<AssetView, Seq<char>>(v.asset_1@),
    ]);
    assert(bo.drop_last().drop_last() =~= Seq::<Result<(u64, Account), Seq<char>>>::empty());
    assert(ao.drop_last().drop_last() =~= Seq::<Result<AssetView, Seq<char>>>::empty());
    assert(ao.drop_last().last() == ao[0]);
    assert(ao.last() == ao[1]);
    assert(bo.drop_last().last() == bo[0]);
    assert(bo.last() == bo[1]);
    let bx = bo.drop_last();
    let ax = ao.drop_last();
    assert(bx.drop_last().len() == 0);
    assert(ax.drop_last().len() == 0);
    assert(problems_of(bx.drop_last()).len() == 0);
    assert(problems_of(ax.drop_last()).len() == 0);
    assert(bx.last() is Ok);
    assert(ax.last() is Ok);
    assert(problems_of(bx).len() == 0);
    assert(problems_of(ax).len() == 0);
    assert(problems_of(bo).len() == 0);
    assert(problems_of(ao).len() == 0);
    assert(successes_of(ax.drop_last()).len() == 0);
    assert(successes_of(bx.drop_last()).len() == 0);
    assert(successes_of(ax) =~= seq![v.asset_0@]);
    assert(successes_of(bx) =~= seq![(v.balance_0_decimals, v.owner_account_0)]);
    assert(successes_of(ao) =~= seq![v.asset_0@, v.asset_1@]);
    assert(bo.drop_last().last() == bo[0]);
    assert(successes_of(bo) =~= seq![
        (v.balance_0_decimals, v.owner_account_0),
        (v.balance_1_decimals, v.owner_account_1),
    ]);
    crate::validation::lemma_accepted_assets_pair_with_icp(seq![v.asset_0@, v.asset_1@]);
}

impl ValidatedBalances {
    /// Validates a balance report: exactly two assets, every balance with an
    /// account and an amount that fits a `u64`, every asset valid, and the
    /// assets a valid pair; reports every problem with the balances and assets.
    pub fn try_from_balances(value: Balances) -> (res: Result<ValidatedBalances, String>)
        ensures
            match balances_validation(value) {
                Err(m) => res matches Err(e) && e@ == m,
                Ok((t, a0, a1, b0, b1)) => res matches Ok(v) && v.timestamp_ns == t && v.asset_0@
                    == a0 && v.asset_1@ == a1 && v.balance_0_decimals == b0.0 && v.owner_account_0
                    == b0.1 && v.balance_1_decimals == b1.0 && v.owner_account_1 == b1.1,
            },
    {
        let ghost v0 = value;
        let Balances { asset_to_balances, timestamp_ns } = value;
        let entries: Vec<(Asset, BalancesForAsset)> = match asset_to_balances {
            Some(v) => v,
            None => Vec::new(),
        };
        let ghost es = entries@;
        if entries.len() != 2 {
            let mut msg = str_chars("Expected exactly two balances, got ");
            push_all(&mut msg, &u64_decimal(entries.len() as u64));
            push_str(&mut msg, ".");
            return Err(string_from_chars(&msg));
        }
        let mut amounts: Vec<(u64, Account)> = Vec::new();
        let mut amount_errors: Vec<Vec<char>> = Vec::new();
        let mut assets: Vec<ValidatedAsset> = Vec::new();
        let mut asset_errors: Vec<Vec<char>> = Vec::new();
        let mut i: usize = 0;
        while i < entries.len()
            invariant
                i <= entries@.len(),
                es == entries@,
                amounts@ == successes_of(balance_outcomes(es.take(i as int))),
                amount_errors.deep_view() =~~= problems_of(balance_outcomes(es.take(i as int))),
                asset_views(assets@) == successes_of(asset_outcomes(es.take(i as int))),
                asset_errors.deep_view() =~~= problems_of(asset_outcomes(es.take(i as int))),
            decreases entries@.len() - i,
        {
            let ghost prefix = es.take(i as int);
            assert(es.take(i + 1).drop_last() =~= prefix);
            let asset = &entries[i].0;
            match &entries[i].1.party_to_balance {
                None => {
                    assert(flat_balances(es.take(i + 1)) =~= flat_balances(prefix));
                },
                Some(parties) => {
                    let ghost base = flat_balances(prefix);
                    let mut j: usize = 0;
                    while j < parties.len()
                        invariant
                            j <= parties@.len(),
                            amounts@ == successes_of(
                                (base + parties@.take(j as int).map_values(
                                    |p: (Party, Balance)| (*asset, p.1),
                                )).map_values(|e: (Asset, Balance)| balance_outcome(e.1)),
                            ),
                            amount_errors.deep_view() =~~= problems_of(
                                (base + parties@.take(j as int).map_values(
                                    |p: (Party, Balance)| (*asset, p.1),
                                )).map_values(|e: (Asset, Balance)| balance_outcome(e.1)),
                            ),
                            asset_views(assets@) == successes_of(
                                (base + parties@.take(j as int).map_values(
                                    |p: (Party, Balance)| (*asset, p.1),
                                )).map_values(|e: (Asset, Balance)| asset_validation(e.0)),
                            ),
                            asset_errors.deep_view() =~~= problems_of(
                                (base + parties@.take(j as int).map_values(
                                    |p: (Party, Balance)| (*asset, p.1),
                                )).map_values(|e: (Asset, Balance)| asset_validation(e.0)),
                            ),
                        decreases parties@.len() - j,
                    {
                        let ghost before = base + parties@.take(j as int).map_values(
                            |p: (Party, Balance)| (*asset, p.1),
                        );
                        let ghost after = base + parties@.take(j + 1).map_values(
                            |p: (Party, Balance)| (*asset, p.1),
                        );
                        assert(after =~= before.push((*asset, parties@[j as int].1)));
                        assert(after.map_values(|e: (Asset, Balance)| balance_outcome(e.1))
                            =~= before.map_values(|e: (Asset, Balance)| balance_outcome(e.1)).push(
                            balance_outcome(parties@[j as int].1),
                        ));
                        assert(after.map_values(|e: (Asset, Balance)| asset_validation(e.0))
                            =~= before.map_values(|e: (Asset, Balance)| asset_validation(e.0)).push(
                            asset_validation(*asset),
                        ));
                        let balance = &parties[j].1;
                        proof {
                            let bo = before.map_values(|e: (Asset, Balance)| balance_outcome(e.1));
                            let x = balance_outcome(parties@[j as int].1);
                            assert(bo.push(x).drop_last() =~= bo);
                            assert(bo.push(x).last() == x);
                            let ao = before.map_values(|e: (Asset, Balance)| asset_validation(e.0));
                            let y = asset_validation(*asset);
                            assert(ao.push(y).drop_last() =~= ao);
                            assert(ao.push(y).last() == y);
                        }
                        match balance.account {
                            None => {
                                amount_errors.push(str_chars("Balance account is missing."));
                            },
                            Some(account) => match decode_nat_to_u64(&balance.amount_decimals) {
                                Ok(amount) => {
                                    amounts.push((amount, account));
                                },
                                Err(err) => {
                                    amount_errors.push(string_chars(&err));
                                },
                            },
                        }
                        match ValidatedAsset::try_from_asset(asset.duplicate()) {
                            Ok(a) => {
                                assets.push(a);
                                assert(asset_views(assets@) =~= asset_views(
                                    assets@.drop_last(),
                                ).push(a@));
                            },
                            Err(err) => {
                                asset_errors.push(string_chars(&err));
                            },
                        }
                        j = j + 1;
                    }
                    assert(parties@.take(parties@.len() as int) =~= parties@);
                    assert(flat_balances(es.take(i + 1)) =~= base + parties@.map_values(
                        |p: (Party, Balance)| (*asset, p.1),
                    ));
                },
            }
            i = i + 1;
        }
        assert(es.take(2) =~= es);
        proof {
            lemma_outcomes_split(balance_outcomes(es));
            lemma_outcomes_split(asset_outcomes(es));
        }
        if amount_errors.len() > 0 || asset_errors.len() > 0 {
            let mut msg = str_chars("Failed to validate balances:\n amount errors:\n ");
            push_all(&mut msg, &join_chars(&amount_errors, ", "));
            push_str(&mut msg, "; asset errors: ");
            push_all(&mut msg, &join_chars(&asset_errors, ", "));
            push_str(&mut msg, ".");
            return Err(string_from_chars(&msg));
        }
        let ghost n_assets = assets@.len();
        let (asset_0, asset_1) = validate_assets(assets)?;
        proof {
            assert(asset_views(assets@).len() == n_assets);
        }
        let (balance_0_decimals, owner_account_0) = amounts[0];
        let (balance_1_decimals, owner_account_1) = amounts[1];
        Ok(
            ValidatedBalances {
                timestamp_ns,
                asset_0,
                asset_1,
                balance_0_decimals,
                balance_1_decimals,
                owner_account_0,
                owner_account_1,
            },
        )
    }
}

} // verus!
