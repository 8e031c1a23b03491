//! Validation of what callers hand the adaptor: assets, allowances, deposit and
//! withdraw requests.
use crate::natural::{decode_error_message, decode_nat_to_u64, digit_base, nat_display, NatValue};
use crate::principal::{icp_ledger_bytes, icp_ledger_canister_id, principal_text, PrincipalId};
use crate::symbol::{symbol_check, symbol_text, ValidatedSymbol};
use crate::text::{
    decimal, join, join_chars, push_all, push_str, str_chars, string_chars, string_from_chars,
    strings_equal, u64_decimal,
};
use crate::types::{
    Account, Allowance, Asset, DepositRequest, TreasuryManagerInit, WithdrawRequest,
};
use vstd::prelude::*;

verus! {

/// The UTF-8 bytes of a text.
pub open spec fn utf8(s: Seq<char>) -> Seq<u8> {
    vstd::utf8::encode_utf8(s)
}

/// A validated asset: a token with a validated symbol, its ledger and its ledger fee.
#[derive(Clone, Copy, Debug, PartialEq, Eq)]
pub enum ValidatedAsset {
    Token { symbol: ValidatedSymbol, ledger_canister_id: PrincipalId, ledger_fee_decimals: u64 },
}

/// What an asset is made of: the symbol's bytes, the ledger's bytes and the fee.
pub struct AssetView {
    pub symbol: Seq<u8>,
    pub ledger: Seq<u8>,
    pub fee: u64,
}

impl View for ValidatedAsset {
    type V = AssetView;

    open spec fn view(&self) -> AssetView {
        match *self {
            ValidatedAsset::Token { symbol, ledger_canister_id, ledger_fee_decimals } => AssetView {
                symbol: symbol@,
                ledger: ledger_canister_id@,
                fee: ledger_fee_decimals,
            },
        }
    }
}

/// The text of the asset's symbol.
pub open spec fn asset_symbol_text(a: AssetView) -> Seq<char> {
    symbol_text(a.symbol)
}

/// What validating an asset gives: the validated asset, or the refusal's message.
pub open spec fn asset_validation(asset: Asset) -> Result<AssetView, Seq<char>> {
    match asset {
        Asset::Token { symbol, ledger_canister_id, ledger_fee_decimals } => match symbol_check(
            utf8(symbol@),
        ) {
            Err(m) => Err("Failed to validate asset symbol: "@ + m),
            Ok(b) => if ledger_fee_decimals.value() >= digit_base() {
                Err(
                    "Failed to validate asset ledger fee_decimals: "@ + decode_error_message(
                        ledger_fee_decimals.value(),
                        crate::natural::significant_len(ledger_fee_decimals.digits@),
                    ),
                )
            } else {
                Ok(
                    AssetView {
                        symbol: b,
                        ledger: ledger_canister_id@,
                        fee: ledger_fee_decimals.value() as u64,
                    },
                )
            },
        },
    }
}

/// The message for the textual form of a principal that cannot be parsed.
pub open spec fn bad_principal_message(text: Seq<char>) -> Seq<char> {
    "Cannot interpret second component as a principal: "@ + text
}

impl ValidatedAsset {
    /// The validated symbol.
    pub fn validated_symbol(&self) -> (s: ValidatedSymbol)
        ensures
            s@ == self@.symbol,
    {
        match *self {
            ValidatedAsset::Token { symbol, .. } => symbol,
        }
    }

    /// The text of the symbol, e.g. `ICP`.
    pub fn symbol(&self) -> (s: String)
        ensures
            s@ == symbol_text(self@.symbol),
    {
        match *self {
            ValidatedAsset::Token { symbol, .. } => symbol.to_string(),
        }
    }

    /// Replaces the symbol; says whether it changed.
    pub fn set_symbol(&mut self, new_symbol: ValidatedSymbol) -> (changed: bool)
        ensures
            changed == (old(self)@.symbol != new_symbol@),
            final(self)@ == (AssetView { symbol: new_symbol@, ..old(self)@ }),
    {
        let ValidatedAsset::Token { symbol, ledger_canister_id, ledger_fee_decimals } = *self;
        if symbol.same_as(&new_symbol) {
            false
        } else {
            *self = ValidatedAsset::Token { symbol: new_symbol, ledger_canister_id, ledger_fee_decimals };
            true
        }
    }

    /// The ledger fee.
    pub fn ledger_fee_decimals(&self) -> (fee: u64)
        ensures
            fee == self@.fee,
    {
        match *self {
            ValidatedAsset::Token { ledger_fee_decimals, .. } => ledger_fee_decimals,
        }
    }

    /// Replaces the ledger fee; says whether it changed.
    pub fn set_ledger_fee_decimals(&mut self, new_fee_decimals: u64) -> (changed: bool)
        ensures
            changed == (old(self)@.fee != new_fee_decimals),
            final(self)@ == (AssetView { fee: new_fee_decimals, ..old(self)@ }),
    {
        let ValidatedAsset::Token { symbol, ledger_canister_id, ledger_fee_decimals } = *self;
        if ledger_fee_decimals == new_fee_decimals {
            false
        } else {
            *self = ValidatedAsset::Token {
                symbol,
                ledger_canister_id,
                ledger_fee_decimals: new_fee_decimals,
            };
            true
        }
    }

    /// The ledger canister of the token.
    pub fn ledger_canister_id(&self) -> (id: PrincipalId)
        ensures
            id@ == self@.ledger,
    {
        match *self {
            ValidatedAsset::Token { ledger_canister_id, .. } => ledger_canister_id,
        }
    }

    /// Validates an asset: its symbol, and that its fee fits a `u64`.
    pub fn try_from_asset(value: Asset) -> (res: Result<ValidatedAsset, String>)
        ensures
            match res {
                Ok(a) => asset_validation(value) == Ok::<AssetView, Seq<char>>(a@),
                Err(m) => asset_validation(value) == Err::<AssetView, Seq<char>>(m@),
            },
    {
        let Asset::Token { symbol, ledger_canister_id, ledger_fee_decimals } = value;
        let symbol = match ValidatedSymbol::try_from_str(symbol.as_str()) {
            Ok(s) => s,
            Err(err) => {
                let mut msg = str_chars("Failed to validate asset symbol: ");
                let e = string_chars(&err);
                push_all(&mut msg, &e);
                return Err(string_from_chars(&msg));
            },
        };
        let ledger_fee_decimals = match decode_nat_to_u64(&ledger_fee_decimals) {
            Ok(f) => f,
            Err(err) => {
                let mut msg = str_chars("Failed to validate asset ledger fee_decimals: ");
                let e = string_chars(&err);
                push_all(&mut msg, &e);
                return Err(string_from_chars(&msg));
            },
        };
        Ok(ValidatedAsset::Token { symbol, ledger_canister_id, ledger_fee_decimals })
    }

    /// Builds an asset from its symbol, the textual form of its ledger, and its fee.
    pub fn try_from_parts(symbol: String, ledger_canister_id: String, ledger_fee_decimals: u64) -> (res:
        Result<ValidatedAsset, String>)
        ensures
            match symbol_check(utf8(symbol@)) {
                Err(m) => res matches Err(e) && e@ == m,
                Ok(b) => match crate::principal::principal_parse(ledger_canister_id@) {
                    None => res matches Err(e) && e@ == bad_principal_message(ledger_canister_id@),
                    Some(l) => res matches Ok(a) && a@ == (AssetView {
                        symbol: b,
                        ledger: l,
                        fee: ledger_fee_decimals,
                    }),
                },
            },
    {
        let symbol = ValidatedSymbol::try_from_string(symbol)?;
        let ledger = match PrincipalId::from_text(ledger_canister_id.as_str()) {
            Some(p) => p,
            None => {
                let mut msg = str_chars("Cannot interpret second component as a principal: ");
                let t = string_chars(&ledger_canister_id);
                push_all(&mut msg, &t);
                return Err(string_from_chars(&msg));
            },
        };
        Ok(ValidatedAsset::Token { symbol, ledger_canister_id: ledger, ledger_fee_decimals })
    }
}

/// A validated allowance: the asset, an amount that fits a `u64`, and the owner's account.
#[derive(Clone, Copy, Debug, PartialEq, Eq)]
pub struct ValidatedAllowance {
    pub asset: ValidatedAsset,
    pub amount_decimals: u64,
    pub owner_account: Account,
}

pub struct AllowanceView {
    pub asset: AssetView,
    pub amount: u64,
    pub owner: Account,
}

impl View for ValidatedAllowance {
    type V = AllowanceView;

    open spec fn view(&self) -> AllowanceView {
        AllowanceView { asset: self.asset@, amount: self.amount_decimals, owner: self.owner_account }
    }
}

/// The message for an allowance below ten times the ledger fee.
pub open spec fn small_allowance_message(amount: nat, fee: u64) -> Seq<char> {
    "Allowance amount must be at least 10 * ledger fee; got amount: "@ + nat_display(amount)
        + ", expected fee: "@ + decimal(fee as nat)
}

/// The problems found with an allowance, in the order they are reported.
pub open spec fn allowance_problems(a: Allowance) -> Seq<Seq<char>> {
    let asset_problems = match asset_validation(a.asset) {
        Ok(v) => if a.amount_decimals.value() / 10 < v.fee {
            seq![small_allowance_message(a.amount_decimals.value(), v.fee)]
        } else {
            Seq::empty()
        },
        Err(m) => seq![m],
    };
    let amount_problems = if a.amount_decimals.value() >= digit_base() {
        seq![
            decode_error_message(
                a.amount_decimals.value(),
                crate::natural::significant_len(a.amount_decimals.digits@),
            ),
        ]
    } else {
        Seq::empty()
    };
    asset_problems + amount_problems
}

/// What validating an allowance gives.
pub open spec fn allowance_validation(a: Allowance) -> Result<AllowanceView, Seq<char>> {
    let problems = allowance_problems(a);
    if problems.len() > 0 {
        Err("Invalid allowance:\n - "@ + join(problems, "  - \n"@))
    } else {
        Ok(
            AllowanceView {
                asset: asset_validation(a.asset)->Ok_0,
                amount: a.amount_decimals.value() as u64,
                owner: a.owner_account,
            },
        )
    }
}

impl ValidatedAllowance {
    /// Validates an allowance: its asset, its amount (at least ten times the
    /// ledger fee, and fitting a `u64`), reporting every problem found.
    pub fn try_from_allowance(allowance: Allowance) -> (res: Result<ValidatedAllowance, String>)
        ensures
            match res {
                Ok(v) => allowance_validation(allowance) == Ok::<AllowanceView, Seq<char>>(v@),
                Err(m) => allowance_validation(allowance) == Err::<AllowanceView, Seq<char>>(m@),
            },
    {
        let ghost a0 = allowance;
        let Allowance { asset, amount_decimals, owner_account } = allowance;
        let mut problems: Vec<Vec<char>> = Vec::new();
        let asset = match ValidatedAsset::try_from_asset(asset) {
            Ok(asset) => {
                let fee = asset.ledger_fee_decimals();
                let (tenth, _) = amount_decimals.div_rem_10();
                if !tenth.ge_u64(fee) {
                    let mut msg = str_chars(
                        "Allowance amount must be at least 10 * ledger fee; got amount: ",
                    );
                    let d = amount_decimals.display();
                    push_all(&mut msg, &d);
                    push_str(&mut msg, ", expected fee: ");
                    let f = u64_decimal(fee);
                    push_all(&mut msg, &f);
                    problems.push(msg);
                }
                Some(asset)
            },
            Err(err) => {
                problems.push(string_chars(&err));
                None
            },
        };
        let ghost p1 = problems.deep_view();
        let amount = match decode_nat_to_u64(&amount_decimals) {
            Ok(v) => Some(v),
            Err(err) => {
                problems.push(string_chars(&err));
                None
            },
        };
        proof {
            assert(problems.deep_view() =~~= allowance_problems(a0));
        }
        if problems.len() > 0 {
            let mut msg = str_chars("Invalid allowance:\n - ");
            let j = join_chars(&problems, "  - \n");
            push_all(&mut msg, &j);
            return Err(string_from_chars(&msg));
        }
        match (asset, amount) {
            (Some(asset), Some(amount)) => Ok(ValidatedAllowance { asset, amount_decimals: amount, owner_account }),
            _ => {
                assert(false);
                Err(String::new())
            },
        }
    }
}

/// The problems found with two assets, given how many more there were.
pub open spec fn asset_pair_problems(extra: nat, a0: AssetView, a1: AssetView) -> Seq<Seq<char>> {
    let p0: Seq<Seq<char>> = if extra > 0 {
        seq!["KongSwapAdaptor requires exactly two assets (got "@ + decimal(extra) + ")."@]
    } else {
        Seq::empty()
    };
    let p1 = if asset_symbol_text(a0) == "ICP"@ {
        p0.push("asset_0 must NOT represent ICP tokens."@)
    } else {
        p0
    };
    let p2 = if asset_symbol_text(a1) != "ICP"@ {
        p1.push("asset_1 must represent ICP tokens."@)
    } else {
        p1
    };
    let p3 = if a0.ledger == icp_ledger_bytes() {
        p2.push("asset_0 ledger must NOT be the ICP ledger."@)
    } else {
        p2
    };
    if a1.ledger != icp_ledger_bytes() {
        p3.push("asset_1 ledger must be the ICP ledger."@)
    } else {
        p3
    }
}

/// What validating a list of assets gives: its last two as `(asset_0, asset_1)`,
/// when there are exactly two, `asset_1` is ICP on the ICP ledger and `asset_0`
/// is neither; else the message listing every problem.
pub open spec fn assets_validation(s: Seq<AssetView>) -> Result<(AssetView, AssetView), Seq<char>> {
    if s.len() == 0 {
        Err("Invalid assets: KongSwapAdaptor requires some assets."@)
    } else if s.len() == 1 {
        Err("Invalid assets: KongSwapAdaptor requires two assets (got 0)."@)
    } else {
        let a0 = s[s.len() - 2];
        let a1 = s[s.len() - 1];
        let problems = asset_pair_problems((s.len() - 2) as nat, a0, a1);
        if problems.len() > 0 {
            Err("Invalid assets: "@ + "\n  - "@ + join(problems, "  - \n"@))
        } else {
            Ok((a0, a1))
        }
    }
}

/// A list of assets is accepted only as a pair of one token other than ICP,
/// first, and ICP on the ICP ledger, second.
pub proof fn lemma_accepted_assets_pair_with_icp(s: Seq<AssetView>)
    requires
        assets_validation(s) is Ok,
    ensures
        s.len() == 2,
        assets_validation(s) == Ok::<(AssetView, AssetView), Seq<char>>((s[0], s[1])),
        asset_symbol_text(s[1]) == "ICP"@,
        s[1].ledger == icp_ledger_bytes(),
        asset_symbol_text(s[0]) != "ICP"@,
        s[0].ledger != icp_ledger_bytes(),
{
    let a0 = s[s.len() - 2];
    let a1 = s[s.len() - 1];
    let extra = (s.len() - 2) as nat;
    let p = asset_pair_problems(extra, a0, a1);
    assert(p.len() == 0);
}

/// The views of the assets.
pub open spec fn asset_views(s: Seq<ValidatedAsset>) -> Seq<AssetView> {
    s.map_values(|a: ValidatedAsset| a@)
}

/// Checks that the assets are exactly two, the second ICP and the first not ICP.
pub fn validate_assets(assets: Vec<ValidatedAsset>) -> (res: Result<
    (ValidatedAsset, ValidatedAsset),
    String,
>)
    ensures
        match res {
            Ok((a0, a1)) => assets_validation(asset_views(assets@)) == Ok::<
                (AssetView, AssetView),
                Seq<char>,
            >((a0@, a1@)),
            Err(m) => assets_validation(asset_views(assets@)) == Err::<
                (AssetView, AssetView),
                Seq<char>,
            >(m@),
        },
{
    let ghost views = asset_views(assets@);
    let n = assets.len();
    if n == 0 {
        return Err(string_from_chars(&str_chars("Invalid assets: KongSwapAdaptor requires some assets.")));
    }
    if n == 1 {
        return Err(
            string_from_chars(
                &str_chars("Invalid assets: KongSwapAdaptor requires two assets (got 0)."),
            ),
        );
    }
    let asset_0 = assets[n - 2];
    let asset_1 = assets[n - 1];
    assert(views[n - 2] == asset_0@ && views[n - 1] == asset_1@);
    let mut problems: Vec<Vec<char>> = Vec::new();
    if n > 2 {
        let mut msg = str_chars("KongSwapAdaptor requires exactly two assets (got ");
        let d = u64_decimal((n - 2) as u64);
        push_all(&mut msg, &d);
        push_str(&mut msg, ").");
        problems.push(msg);
    }
    let s0 = asset_0.symbol();
    if strings_equal(s0.as_str(), "ICP") {
        problems.push(str_chars("asset_0 must NOT represent ICP tokens."));
    }
    let s1 = asset_1.symbol();
    if !strings_equal(s1.as_str(), "ICP") {
        problems.push(str_chars("asset_1 must represent ICP tokens."));
    }
    let icp = icp_ledger_canister_id();
    if asset_0.ledger_canister_id().same_as(&icp) {
        problems.push(str_chars("asset_0 ledger must NOT be the ICP ledger."));
    }
    if !asset_1.ledger_canister_id().same_as(&icp) {
        problems.push(str_chars("asset_1 ledger must be the ICP ledger."));
    }
    proof {
        assert(problems.deep_view() =~~= asset_pair_problems(
            (n - 2) as nat,
            asset_0@,
            asset_1@,
        ));
    }
    if problems.len() > 0 {
        let mut msg = str_chars("Invalid assets: ");
        push_str(&mut msg, "\n  - ");
        let j = join_chars(&problems, "  - \n");
        push_all(&mut msg, &j);
        return Err(string_from_chars(&msg));
    }
    Ok((asset_0, asset_1))
}

/// What validating a list of allowances gives: its last two as
/// `(allowance_0, allowance_1)`, each valid, and their assets a valid pair.
pub open spec fn allowances_validation(s: Seq<Allowance>) -> Result<
    (AllowanceView, AllowanceView),
    Seq<char>,
> {
    if s.len() == 0 {
        Err("KongSwapAdaptor requires some allowances."@)
    } else if s.len() == 1 {
        Err("KongSwapAdaptor requires two allowances (got 0)."@)
    } else {
        let p0: Seq<Seq<char>> = if s.len() > 2 {
            seq![
                "KongSwapAdaptor requires exactly two allowances (got "@ + decimal(
                    (s.len() - 2) as nat,
                ) + ")."@,
            ]
        } else {
            Seq::empty()
        };
        match allowance_validation(s[s.len() - 2]) {
            Err(e) => Err("Failed to validate allowance_0: "@ + e),
            Ok(v0) => match allowance_validation(s[s.len() - 1]) {
                Err(e) => Err("Failed to validate allowance_1: "@ + e),
                Ok(v1) => {
                    let p = match assets_validation(seq![v0.asset, v1.asset]) {
                        Err(e) => p0.push(e),
                        Ok(_) => p0,
                    };
                    if p.len() > 0 {
                        Err("Invalid allowances:\n - "@ + join(p, "  - \n"@))
                    } else {
                        Ok((v0, v1))
                    }
                },
            },
        }
    }
}

/// Checks that there are exactly two allowances, each valid, for a valid pair of assets.
pub fn validate_allowances(allowances: Vec<Allowance>) -> (res: Result<
    (ValidatedAllowance, ValidatedAllowance),
    String,
>)
    ensures
        match res {
            Ok((a0, a1)) => allowances_validation(allowances@) == Ok::<
                (AllowanceView, AllowanceView),
                Seq<char>,
            >((a0@, a1@)),
            Err(m) => allowances_validation(allowances@) == Err::<
                (AllowanceView, AllowanceView),
                Seq<char>,
            >(m@),
        },
{
    let ghost s = allowances@;
    let mut allowances = allowances;
    let allowance_1 = match allowances.pop() {
        Some(a) => a,
        None => {
            return Err(string_from_chars(&str_chars("KongSwapAdaptor requires some allowances.")));
        },
    };
    let allowance_0 = match allowances.pop() {
        Some(a) => a,
        None => {
            return Err(
                string_from_chars(&str_chars("KongSwapAdaptor requires two allowances (got 0).")),
            );
        },
    };
    assert(allowance_1 == s[s.len() - 1] && allowance_0 == s[s.len() - 2]);
    let mut problems: Vec<Vec<char>> = Vec::new();
    if allowances.len() > 0 {
        let mut msg = str_chars("KongSwapAdaptor requires exactly two allowances (got ");
        let d = u64_decimal(allowances.len() as u64);
        push_all(&mut msg, &d);
        push_str(&mut msg, ").");
        problems.push(msg);
    }
    let allowance_0 = match ValidatedAllowance::try_from_allowance(allowance_0) {
        Ok(a) => a,
        Err(err) => {
            let mut msg = str_chars("Failed to validate allowance_0: ");
            let e = string_chars(&err);
            push_all(&mut msg, &e);
            return Err(string_from_chars(&msg));
        },
    };
    let allowance_1 = match ValidatedAllowance::try_from_allowance(allowance_1) {
        Ok(a) => a,
        Err(err) => {
            let mut msg = str_chars("Failed to validate allowance_1: ");
            let e = string_chars(&err);
            push_all(&mut msg, &e);
            return Err(string_from_chars(&msg));
        },
    };
    let mut assets: Vec<ValidatedAsset> = Vec::new();
    assets.push(allowance_0.asset);
    assets.push(allowance_1.asset);
    assert(asset_views(assets@) =~= seq![allowance_0@.asset, allowance_1@.asset]);
    if let Err(err) = validate_assets(assets) {
        problems.push(string_chars(&err));
    }
    if problems.len() > 0 {
        let mut msg = str_chars("Invalid allowances:\n - ");
        let j = join_chars(&problems, "  - \n");
        push_all(&mut msg, &j);
        proof {
            let v0 = allowance_validation(s[s.len() - 2])->Ok_0;
            let v1 = allowance_validation(s[s.len() - 1])->Ok_0;
            let p0: Seq<Seq<char>> = if s.len() > 2 {
                seq![
                    "KongSwapAdaptor requires exactly two allowances (got "@ + decimal(
                        (s.len() - 2) as nat,
                    ) + ")."@,
                ]
            } else {
                Seq::empty()
            };
            let p = match assets_validation(seq![v0.asset, v1.asset]) {
                Err(e) => p0.push(e),
                Ok(_) => p0,
            };
            assert(problems.deep_view() =~~= p);
        }
        return Err(string_from_chars(&msg));
    }
    Ok((allowance_0, allowance_1))
}

/// The two allowances that the adaptor is installed with.
pub struct ValidatedTreasuryManagerInit {
    pub allowance_0: ValidatedAllowance,
    pub allowance_1: ValidatedAllowance,
}

impl ValidatedTreasuryManagerInit {
    /// Validates the installation arguments.
    pub fn try_from_init(init: TreasuryManagerInit) -> (res: Result<ValidatedTreasuryManagerInit, String>)
        ensures
            match (allowances_validation(init.allowances@), res) {
                (Ok((v0, v1)), Ok(r)) => r.allowance_0@ == v0 && r.allowance_1@ == v1,
                (Err(m), Err(e)) => e@ == "Failed to validate TreasuryManagerInit: "@ + m,
                _ => false,
            },
    {
        let TreasuryManagerInit { allowances } = init;
        match validate_allowances(allowances) {
            Ok((allowance_0, allowance_1)) => Ok(ValidatedTreasuryManagerInit { allowance_0, allowance_1 }),
            Err(err) => {
                let mut msg = str_chars("Failed to validate TreasuryManagerInit: ");
                let e = string_chars(&err);
                push_all(&mut msg, &e);
                Err(string_from_chars(&msg))
            },
        }
    }
}

/// The two allowances of a deposit.
pub struct ValidatedDepositRequest {
    pub allowance_0: ValidatedAllowance,
    pub allowance_1: ValidatedAllowance,
}

impl ValidatedDepositRequest {
    /// Validates a deposit request.
    pub fn try_from_request(value: DepositRequest) -> (res: Result<ValidatedDepositRequest, String>)
        ensures
            match (allowances_validation(value.allowances@), res) {
                (Ok((v0, v1)), Ok(r)) => r.allowance_0@ == v0 && r.allowance_1@ == v1,
                (Err(m), Err(e)) => e@ == "Failed to validate DepositRequest: "@ + m,
                _ => false,
            },
    {
        let DepositRequest { allowances } = value;
        match validate_allowances(allowances) {
            Ok((allowance_0, allowance_1)) => Ok(ValidatedDepositRequest { allowance_0, allowance_1 }),
            Err(err) => {
                let mut msg = str_chars("Failed to validate DepositRequest: ");
                let e = string_chars(&err);
                push_all(&mut msg, &e);
                Err(string_from_chars(&msg))
            },
        }
    }
}

/// The account that a map from ledgers to accounts gives a ledger: the first
/// entry for it.
pub open spec fn account_for_ledger(entries: Seq<(PrincipalId, Account)>, ledger: Seq<u8>) -> Option<
    Account,
>
    decreases entries.len(),
{
    if entries.len() == 0 {
        None
    } else if entries[0].0@ == ledger {
        Some(entries[0].1)
    } else {
        account_for_ledger(entries.drop_first(), ledger)
    }
}

/// Whether each ledger occurs at most once among the entries, as in a map.
pub open spec fn ledgers_distinct(entries: Seq<(PrincipalId, Account)>) -> bool {
    forall|i: int, j: int| 0 <= i < j < entries.len() ==> #[trigger] entries[i].0@ != #[trigger] entries[j].0@
}

/// With each ledger once, as in a map, the account found for a listed ledger
/// is the one listed with it, wherever it stands; an unlisted ledger has none.
pub proof fn lemma_account_for_listed_ledger(entries: Seq<(PrincipalId, Account)>, ledger: Seq<u8>)
    requires
        ledgers_distinct(entries),
    ensures
        forall|i: int| 0 <= i < entries.len() && #[trigger] entries[i].0@ == ledger ==> account_for_ledger(
            entries,
            ledger,
        ) == Some(entries[i].1),
        (forall|i: int| 0 <= i < entries.len() ==> #[trigger] entries[i].0@ != ledger) ==> account_for_ledger(
            entries,
            ledger,
        ) is None,
    decreases entries.len(),
{
    if entries.len() > 0 {
        let rest = entries.drop_first();
        assert forall|i: int, j: int| 0 <= i < j < rest.len() implies #[trigger] rest[i].0@ != #[trigger] rest[j].0@ by {
            assert(rest[i] == entries[i + 1] && rest[j] == entries[j + 1]);
        }
        lemma_account_for_listed_ledger(rest, ledger);
        assert forall|i: int| 0 <= i < entries.len() && #[trigger] entries[i].0@ == ledger implies account_for_ledger(
            entries,
            ledger,
        ) == Some(entries[i].1) by {
            if i > 0 {
                assert(entries[0].0@ != entries[i].0@);
                assert(rest[i - 1] == entries[i]);
            }
        }
        if forall|i: int| 0 <= i < entries.len() ==> #[trigger] entries[i].0@ != ledger {
            assert forall|i: int| 0 <= i < rest.len() implies #[trigger] rest[i].0@ != ledger by {
                assert(rest[i] == entries[i + 1]);
            }
            assert(entries[0].0@ != ledger);
        }
    }
}

/// Looks up the account for a ledger.
pub fn find_account_for_ledger(entries: &Vec<(PrincipalId, Account)>, ledger: &PrincipalId) -> (res:
    Option<Account>)
    ensures
        res == account_for_ledger(entries@, ledger@),
{
    let mut i: usize = 0;
    assert(entries@.skip(0) =~= entries@);
    while i < entries.len()
        invariant
            i <= entries@.len(),
            account_for_ledger(entries@, ledger@) == account_for_ledger(
                entries@.skip(i as int),
                ledger@,
            ),
        decreases entries@.len() - i,
    {
        assert(entries@.skip(i as int)[0] == entries@[i as int]);
        assert(entries@.skip(i as int).drop_first() =~= entries@.skip(i + 1));
        if entries[i].0.same_as(ledger) {
            return Some(entries[i].1);
        }
        i = i + 1;
    }
    None
}

/// The message for a ledger that has no withdraw account.
pub open spec fn missing_withdraw_account_message(ledger: Seq<u8>) -> Seq<char> {
    "Withdraw account for ledger "@ + principal_text(ledger) + " not found."@
}

/// Where a withdrawal sends each token.
pub struct ValidatedWithdrawRequest {
    pub withdraw_account_0: Account,
    pub withdraw_account_1: Account,
}

impl ValidatedWithdrawRequest {
    /// The destination accounts of a withdrawal: the owners' accounts, unless the
    /// request names accounts, in which case it must name one for each ledger.
    pub fn try_from_parts(
        ledger_0: PrincipalId,
        ledger_1: PrincipalId,
        default_withdraw_account_0: Account,
        default_withdraw_account_1: Account,
        request: WithdrawRequest,
    ) -> (res: Result<ValidatedWithdrawRequest, String>)
        ensures
            match request.withdraw_accounts {
                None => res matches Ok(r) && r.withdraw_account_0 == default_withdraw_account_0
                    && r.withdraw_account_1 == default_withdraw_account_1,
                Some(accounts) => match (
                    account_for_ledger(accounts.ledger_id_to_account@, ledger_0@),
                    account_for_ledger(accounts.ledger_id_to_account@, ledger_1@),
                ) {
                    (None, _) => res matches Err(e) && e@ == missing_withdraw_account_message(
                        ledger_0@,
                    ),
                    (Some(_), None) => res matches Err(e) && e@
                        == missing_withdraw_account_message(ledger_1@),
                    (Some(a0), Some(a1)) => res matches Ok(r) && r.withdraw_account_0 == a0
                        && r.withdraw_account_1 == a1,
                },
            },
    {
        match request.withdraw_accounts {
            None => Ok(
                ValidatedWithdrawRequest {
                    withdraw_account_0: default_withdraw_account_0,
                    withdraw_account_1: default_withdraw_account_1,
                },
            ),
            Some(accounts) => {
                let withdraw_account_0 = match find_account_for_ledger(
                    &accounts.ledger_id_to_account,
                    &ledger_0,
                ) {
                    Some(a) => a,
                    None => {
                        return Err(missing_account_message(&ledger_0));
                    },
                };
                let withdraw_account_1 = match find_account_for_ledger(
                    &accounts.ledger_id_to_account,
                    &ledger_1,
                ) {
                    Some(a) => a,
                    None => {
                        return Err(missing_account_message(&ledger_1));
                    },
                };
                Ok(ValidatedWithdrawRequest { withdraw_account_0, withdraw_account_1 })
            },
        }
    }
}

fn missing_account_message(ledger: &PrincipalId) -> (msg: String)
    ensures
        msg@ == missing_withdraw_account_message(ledger@),
{
    let mut m = str_chars("Withdraw account for ledger ");
    let t = ledger.to_text();
    let tc = string_chars(&t);
    push_all(&mut m, &tc);
    push_str(&mut m, " not found.");
    string_from_chars(&m)
}

} // verus!
