use kongswap_adaptor::balances::{Balance, Balances, BalancesForAsset, Party, ValidatedBalances};
use kongswap_adaptor::natural::{decode_nat_to_u64, NatValue};
use kongswap_adaptor::principal::PrincipalId;
use kongswap_adaptor::symbol::{bytes_to_string, is_valid_symbol_character, take_bytes, ValidatedSymbol};
use kongswap_adaptor::types::{
    Account, Accounts, Allowance, Asset, DepositRequest, TreasuryManagerInit, WithdrawRequest,
};
use kongswap_adaptor::validation::{
    find_account_for_ledger, validate_allowances, validate_assets, ValidatedAllowance, ValidatedAsset,
    ValidatedDepositRequest, ValidatedTreasuryManagerInit, ValidatedWithdrawRequest,
};

const FEE_SNS: u64 = 10_500;
const FEE_ICP: u64 = 9_500;
const E8: u64 = 100_000_000;

fn principal(text: &str) -> PrincipalId {
    PrincipalId::from_text(text).unwrap()
}

fn sns_ledger() -> PrincipalId {
    principal("rdmx6-jaaaa-aaaaa-aaadq-cai")
}

fn icp_ledger() -> PrincipalId {
    principal("ryjl3-tyaaa-aaaaa-aaaba-cai")
}

fn owner() -> Account {
    Account { owner: principal("2vxsx-fae"), subaccount: None }
}

fn asset(symbol: &str, ledger: PrincipalId, fee: u64) -> Asset {
    Asset::Token {
        symbol: symbol.to_string(),
        ledger_canister_id: ledger,
        ledger_fee_decimals: NatValue::from_u64(fee),
    }
}

fn allowance(asset: Asset, amount: u64) -> Allowance {
    Allowance { asset, amount_decimals: NatValue::from_u64(amount), owner_account: owner() }
}

fn dao_icp_allowances(amount_0: u64, amount_1: u64) -> Vec<Allowance> {
    vec![
        allowance(asset("DAO", sns_ledger(), FEE_SNS), amount_0),
        allowance(asset("ICP", icp_ledger(), FEE_ICP), amount_1),
    ]
}

#[test]
fn symbol_accepts_short_graphic_ascii() {
    let s = ValidatedSymbol::try_from_str("CHAT").unwrap();
    assert_eq!(s.to_string(), "CHAT");
    assert_eq!(s.bytes(), [67, 72, 65, 84, 0, 0, 0, 0, 0, 0]);
    assert_eq!(ValidatedSymbol::try_from_str("0123456789").unwrap().to_string(), "0123456789");
}

#[test]
fn symbol_text_round_trips() {
    for text in ["DAO", "ICP", "X", "0123456789", "!~"] {
        let s = ValidatedSymbol::try_from_str(text).unwrap();
        assert_eq!(s.to_string(), text);
        let again = ValidatedSymbol::try_from_string(s.to_string()).unwrap();
        assert_eq!(again.bytes(), s.bytes());
    }
    // Bytes with something after a NUL print only up to the NUL.
    let gap = ValidatedSymbol::try_from_bytes([65, 0, 66, 0, 0, 0, 0, 0, 0, 0]).unwrap();
    assert_eq!(gap.to_string(), "A");
    assert_ne!(ValidatedSymbol::try_from_str(&gap.to_string()).unwrap().bytes(), gap.bytes());
}

#[test]
fn symbol_refuses_long_text() {
    assert_eq!(
        ValidatedSymbol::try_from_str("ABCDEFGHIJK").unwrap_err(),
        "Symbol must not exceed 10 bytes or characters, got 11 bytes."
    );
}

#[test]
fn symbol_refuses_spaces_and_control_characters() {
    assert_eq!(
        ValidatedSymbol::try_from_str("A B").unwrap_err(),
        "Symbol must be ASCII and graphic; got [65, 32, 66, 0, 0, 0, 0, 0, 0, 0]"
    );
    assert!(ValidatedSymbol::try_from_bytes([1, 0, 0, 0, 0, 0, 0, 0, 0, 0]).is_err());
}

#[test]
fn symbol_helpers() {
    assert!(is_valid_symbol_character(&0));
    assert!(is_valid_symbol_character(&b'~'));
    assert!(!is_valid_symbol_character(&b' '));
    assert!(!is_valid_symbol_character(&0x7f));
    assert_eq!(take_bytes("ICP"), [73, 67, 80, 0, 0, 0, 0, 0, 0, 0]);
    assert_eq!(take_bytes("ABCDEFGHIJKL"), *b"ABCDEFGHIJ");
    assert_eq!(bytes_to_string(&[73, 67, 80, 0, 65]), "ICP");
}

#[test]
fn decode_nat_to_u64_fits_and_overflows() {
    assert_eq!(decode_nat_to_u64(&NatValue::from_digits(vec![])), Ok(0));
    assert_eq!(decode_nat_to_u64(&NatValue::from_u64(42)), Ok(42));
    assert_eq!(decode_nat_to_u64(&NatValue::from_digits(vec![7, 0, 0])), Ok(7));
    assert_eq!(
        decode_nat_to_u64(&NatValue::from_digits(vec![0, 1])),
        Err("Error parsing a Nat value `Nat(18446744073709551616)` to u64: expected a unique u64 value, got 2.".to_string())
    );
}

#[test]
fn nat_renderings() {
    let n = NatValue::from_u64(1_234_567);
    assert_eq!(n.to_decimal().into_iter().collect::<String>(), "1234567");
    assert_eq!(n.display().into_iter().collect::<String>(), "1_234_567");
    assert_eq!(n.debug().into_iter().collect::<String>(), "Nat(1234567)");
    assert_eq!(NatValue::from_u64(0).display().into_iter().collect::<String>(), "0");
    let big = NatValue::from_digits(vec![0, 0, 1]);
    assert_eq!(
        big.to_decimal().into_iter().collect::<String>(),
        "340282366920938463463374607431768211456"
    );
    assert!(big.ge_u64(u64::MAX));
    assert!(!NatValue::from_u64(5).ge_u64(6));
}

#[test]
fn asset_validation_reports_the_symbol_problem() {
    let err = ValidatedAsset::try_from_asset(asset("NOT A SYMBOL", sns_ledger(), 1)).unwrap_err();
    assert_eq!(
        err,
        "Failed to validate asset symbol: Symbol must not exceed 10 bytes or characters, got 12 bytes."
    );
    let a = ValidatedAsset::try_from_asset(asset("DAO", sns_ledger(), FEE_SNS)).unwrap();
    assert_eq!(a.symbol(), "DAO");
    assert_eq!(a.ledger_fee_decimals(), FEE_SNS);
    assert!(a.ledger_canister_id().same_as(&sns_ledger()));
}

#[test]
fn asset_from_parts() {
    let a = ValidatedAsset::try_from_parts(
        "ICP".to_string(),
        "ryjl3-tyaaa-aaaaa-aaaba-cai".to_string(),
        10_000,
    )
    .unwrap();
    assert!(a.ledger_canister_id().same_as(&icp_ledger()));
    assert_eq!(
        ValidatedAsset::try_from_parts("ICP".to_string(), "not-a-principal".to_string(), 1)
            .unwrap_err(),
        "Cannot interpret second component as a principal: not-a-principal"
    );
}

#[test]
fn set_symbol_and_fee_report_changes() {
    let mut a = ValidatedAsset::try_from_asset(asset("DAO", sns_ledger(), FEE_SNS)).unwrap();
    assert!(!a.set_symbol(ValidatedSymbol::try_from_str("DAO").unwrap()));
    assert!(a.set_symbol(ValidatedSymbol::try_from_str("XYZ").unwrap()));
    assert_eq!(a.symbol(), "XYZ");
    assert!(!a.set_ledger_fee_decimals(FEE_SNS));
    assert!(a.set_ledger_fee_decimals(1));
    assert_eq!(a.ledger_fee_decimals(), 1);
}

#[test]
fn allowance_must_cover_ten_fees() {
    let err = ValidatedAllowance::try_from_allowance(allowance(
        asset("DAO", sns_ledger(), FEE_SNS),
        10 * FEE_SNS - 10,
    ))
    .unwrap_err();
    assert_eq!(
        err,
        "Invalid allowance:\n - Allowance amount must be at least 10 * ledger fee; got amount: 104_990, expected fee: 10500"
    );
    let ok = ValidatedAllowance::try_from_allowance(allowance(
        asset("DAO", sns_ledger(), FEE_SNS),
        10 * FEE_SNS,
    ))
    .unwrap();
    assert_eq!(ok.amount_decimals, 10 * FEE_SNS);
}

#[test]
fn validate_assets_accepts_sns_then_icp() {
    let a0 = ValidatedAsset::try_from_asset(asset("DAO", sns_ledger(), FEE_SNS)).unwrap();
    let a1 = ValidatedAsset::try_from_asset(asset("ICP", icp_ledger(), FEE_ICP)).unwrap();
    let (b0, b1) = validate_assets(vec![a0, a1]).unwrap();
    assert_eq!(b0, a0);
    assert_eq!(b1, a1);
}

#[test]
fn validate_assets_lists_every_problem() {
    let a0 = ValidatedAsset::try_from_asset(asset("DAO", sns_ledger(), FEE_SNS)).unwrap();
    let a1 = ValidatedAsset::try_from_asset(asset("ICP", icp_ledger(), FEE_ICP)).unwrap();
    assert_eq!(
        validate_assets(vec![a1, a0]).unwrap_err(),
        "Invalid assets: \n  - asset_0 must NOT represent ICP tokens.  - \nasset_1 must represent ICP tokens.  - \nasset_0 ledger must NOT be the ICP ledger.  - \nasset_1 ledger must be the ICP ledger."
    );
    assert_eq!(
        validate_assets(vec![]).unwrap_err(),
        "Invalid assets: KongSwapAdaptor requires some assets."
    );
    assert_eq!(
        validate_assets(vec![a1]).unwrap_err(),
        "Invalid assets: KongSwapAdaptor requires two assets (got 0)."
    );
    assert_eq!(
        validate_assets(vec![a0, a0, a1]).unwrap_err(),
        "Invalid assets: \n  - KongSwapAdaptor requires exactly two assets (got 1)."
    );
}

#[test]
fn validate_allowances_checks_count_and_pair() {
    let (a0, a1) = validate_allowances(dao_icp_allowances(500 * E8, 400 * E8)).unwrap();
    assert_eq!(a0.amount_decimals, 500 * E8);
    assert_eq!(a1.amount_decimals, 400 * E8);
    assert_eq!(
        validate_allowances(vec![]).unwrap_err(),
        "KongSwapAdaptor requires some allowances."
    );
    let one = vec![allowance(asset("ICP", icp_ledger(), FEE_ICP), E8)];
    assert_eq!(
        validate_allowances(one).unwrap_err(),
        "KongSwapAdaptor requires two allowances (got 0)."
    );
    let mut reversed = dao_icp_allowances(500 * E8, 400 * E8);
    reversed.reverse();
    assert!(validate_allowances(reversed)
        .unwrap_err()
        .starts_with("Invalid allowances:\n - Invalid assets: "));
}

#[test]
fn init_and_deposit_requests_wrap_errors() {
    let init = ValidatedTreasuryManagerInit::try_from_init(TreasuryManagerInit {
        allowances: dao_icp_allowances(500 * E8, 400 * E8),
    })
    .unwrap();
    assert_eq!(init.allowance_0.amount_decimals, 500 * E8);
    let err = ValidatedDepositRequest::try_from_request(DepositRequest { allowances: vec![] })
        .err()
        .unwrap();
    assert_eq!(
        err,
        "Failed to validate DepositRequest: KongSwapAdaptor requires some allowances."
    );
}

#[test]
fn withdraw_request_uses_owner_accounts_by_default() {
    let other = Account { owner: principal("jexlm-gaaaa-aaaar-qalmq-cai"), subaccount: Some([1; 32]) };
    let v = ValidatedWithdrawRequest::try_from_parts(
        sns_ledger(),
        icp_ledger(),
        owner(),
        other,
        WithdrawRequest { withdraw_accounts: None },
    )
    .unwrap();
    assert_eq!(v.withdraw_account_0, owner());
    assert_eq!(v.withdraw_account_1, other);

    let named = WithdrawRequest {
        withdraw_accounts: Some(Accounts {
            ledger_id_to_account: vec![(icp_ledger(), other), (sns_ledger(), other)],
        }),
    };
    let v = ValidatedWithdrawRequest::try_from_parts(sns_ledger(), icp_ledger(), owner(), owner(), named)
        .unwrap();
    assert_eq!(v.withdraw_account_0, other);
    assert_eq!(v.withdraw_account_1, other);

    let missing = WithdrawRequest {
        withdraw_accounts: Some(Accounts { ledger_id_to_account: vec![(sns_ledger(), other)] }),
    };
    assert_eq!(
        ValidatedWithdrawRequest::try_from_parts(sns_ledger(), icp_ledger(), owner(), owner(), missing)
            .err()
            .unwrap(),
        "Withdraw account for ledger ryjl3-tyaaa-aaaaa-aaaba-cai not found."
    );
}

fn validated_pair() -> (ValidatedAsset, ValidatedAsset) {
    (
        ValidatedAsset::try_from_asset(asset("DAO", sns_ledger(), FEE_SNS)).unwrap(),
        ValidatedAsset::try_from_asset(asset("ICP", icp_ledger(), FEE_ICP)).unwrap(),
    )
}

#[test]
fn balances_report_round_trip() {
    let (a0, a1) = validated_pair();
    let v = ValidatedBalances::new(7, a0, a1, 11, 12, owner(), owner());
    let report = Balances::from_validated(v);
    assert_eq!(report.timestamp_ns, 7);
    let entries = report.asset_to_balances.clone().unwrap();
    assert_eq!(entries.len(), 2);
    let parties = entries[0].1.party_to_balance.clone().unwrap();
    assert_eq!(parties[0].0, Party::TreasuryManager);
    assert_eq!(parties[0].1.amount_decimals, NatValue::from_u64(11));
    let back = ValidatedBalances::try_from_balances(report).unwrap();
    assert_eq!(back, v);
}

#[test]
fn balances_report_lists_assets_in_map_order() {
    let (_, icp) = validated_pair();
    let zzz = ValidatedAsset::try_from_asset(asset("ZZZ", sns_ledger(), FEE_SNS)).unwrap();
    let v = ValidatedBalances::new(7, zzz, icp, 11, 12, owner(), owner());
    let report = Balances::from_validated(v);
    let entries = report.asset_to_balances.clone().unwrap();
    assert_eq!(entries.len(), 2);
    let Asset::Token { symbol, .. } = &entries[0].0;
    assert_eq!(symbol, "ICP");
    let parties = entries[0].1.party_to_balance.clone().unwrap();
    assert_eq!(parties[0].1.amount_decimals, NatValue::from_u64(12));
    // Read back in map order, ICP comes first, which a valid pair does not allow.
    assert!(ValidatedBalances::try_from_balances(report).is_err());

    let same = ValidatedBalances::new(7, icp, icp, 11, 12, owner(), owner());
    let entries = Balances::from_validated(same).asset_to_balances.unwrap();
    assert_eq!(entries.len(), 1);
    let parties = entries[0].1.party_to_balance.clone().unwrap();
    assert_eq!(parties[0].1.amount_decimals, NatValue::from_u64(12));
}

#[test]
fn balances_report_errors() {
    let report = Balances { timestamp_ns: 0, asset_to_balances: None };
    assert_eq!(
        ValidatedBalances::try_from_balances(report).unwrap_err(),
        "Expected exactly two balances, got 0."
    );
    let (a0, a1) = validated_pair();
    let missing_account = BalancesForAsset {
        party_to_balance: Some(vec![(
            Party::TreasuryManager,
            Balance { amount_decimals: NatValue::from_u64(1), account: None },
        )]),
    };
    let report = Balances {
        timestamp_ns: 0,
        asset_to_balances: Some(vec![
            (Asset::from_validated(a0), missing_account.clone()),
            (Asset::from_validated(a1), missing_account),
        ]),
    };
    assert_eq!(
        ValidatedBalances::try_from_balances(report).unwrap_err(),
        "Failed to validate balances:\n amount errors:\n Balance account is missing., Balance account is missing.; asset errors: ."
    );
}

#[test]
fn refresh_asset_keeps_the_ledger() {
    let (a0, a1) = validated_pair();
    let mut v = ValidatedBalances::new_with_zero_balances(0, a0, a1, owner(), owner());
    let renamed = ValidatedAsset::try_from_asset(asset("NEW", icp_ledger(), 3)).unwrap();
    assert!(v.refresh_asset(0, renamed));
    assert_eq!(v.asset_0.symbol(), "NEW");
    assert_eq!(v.asset_0.ledger_fee_decimals(), 3);
    assert!(v.asset_0.ledger_canister_id().same_as(&sns_ledger()));
    assert_eq!(v.asset_1, a1);
    assert!(!v.refresh_asset(0, renamed));
    assert!(!v.refresh_asset(2, renamed));
    assert_eq!(v.asset_1, a1);
    v.set(5, 6, 9);
    assert_eq!((v.balance_0_decimals, v.balance_1_decimals, v.timestamp_ns), (5, 6, 9));
}

#[test]
fn each_listed_ledger_finds_its_own_account_in_any_order() {
    let other = Account { owner: principal("2ipq2-uqaaa-aaaar-qailq-cai"), subaccount: None };
    let forward = vec![(sns_ledger(), owner()), (icp_ledger(), other)];
    let backward = vec![(icp_ledger(), other), (sns_ledger(), owner())];
    for entries in [forward, backward] {
        assert_eq!(find_account_for_ledger(&entries, &sns_ledger()), Some(owner()));
        assert_eq!(find_account_for_ledger(&entries, &icp_ledger()), Some(other));
        assert_eq!(find_account_for_ledger(&entries, &principal("2vxsx-fae")), None);
    }
}

#[test]
fn the_report_lists_each_asset_once_in_ascending_order() {
    let (a0, a1) = validated_pair();
    let report = Balances::from_validated(ValidatedBalances::new_with_zero_balances(0, a0, a1, owner(), owner()));
    let entries = report.asset_to_balances.unwrap();
    assert_eq!(entries.len(), 2);
    assert!(entries[0].0 != entries[1].0);
    let same = Balances::from_validated(ValidatedBalances::new_with_zero_balances(0, a0, a0, owner(), owner()));
    assert_eq!(same.asset_to_balances.unwrap().len(), 1);
}
