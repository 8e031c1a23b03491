use kongswap_adaptor::dex::{
    add_liquidity_amounts_request, add_liquidity_request, add_pool_request, add_token_outcome,
    add_token_request, apply_ledger_metadata, approve_request, combine_balance_results,
    combine_step_results, deposit_amount, kong_token, ledger_balance_from_reply,
    remove_liquidity_amounts_balances, select_lp_balance, transfer_request, update_token_request,
    user_balances_request, withdrawal_from_reply,
};
use kongswap_adaptor::kong_types::{
    approve_witness, ledger_witness, ICTransferReply, MetadataValue, RemoveLiquidityAmountsReply,
    RemoveLiquidityReply, TransferIdReply, TransferReply,
};
use kongswap_adaptor::natural::NatValue;
use kongswap_adaptor::principal::PrincipalId;
use kongswap_adaptor::state::KongSwapAdaptor;
use kongswap_adaptor::types::{
    Account, Accounts, Allowance, Asset, DepositRequest, Error, ErrorKind, Operation, Step,
    TransactionWitness, TreasuryManagerOperation, WithdrawRequest, ERROR_CODE_BACKEND,
    ERROR_CODE_TEMPORARILY_UNAVAILABLE,
    ERROR_CODE_CALL,
};
use kongswap_adaptor::validation::{ValidatedAllowance, ValidatedAsset};

const FEE_SNS: u64 = 10_500;
const FEE_ICP: u64 = 9_500;
const E8: u64 = 100_000_000;

fn principal(text: &str) -> PrincipalId {
    PrincipalId::from_text(text).unwrap()
}

fn sns_ledger() -> PrincipalId {
    principal("rdmx6-jaaaa-aaaaa-aaadq-cai")
}

fn icp_ledger() -> PrincipalId {
    principal("ryjl3-tyaaa-aaaaa-aaaba-cai")
}

fn owner() -> Account {
    Account { owner: principal("2vxsx-fae"), subaccount: None }
}

fn asset(symbol: &str, ledger: PrincipalId, fee: u64) -> Asset {
    Asset::Token {
        symbol: symbol.to_string(),
        ledger_canister_id: ledger,
        ledger_fee_decimals: NatValue::from_u64(fee),
    }
}

fn assets() -> (ValidatedAsset, ValidatedAsset) {
    (
        ValidatedAsset::try_from_asset(asset("DAO", sns_ledger(), FEE_SNS)).unwrap(),
        ValidatedAsset::try_from_asset(asset("ICP", icp_ledger(), FEE_ICP)).unwrap(),
    )
}

fn adaptor() -> KongSwapAdaptor {
    let mut a = KongSwapAdaptor::new(principal("jexlm-gaaaa-aaaar-qalmq-cai"));
    let (a0, a1) = assets();
    a.initialize(a0, a1, owner(), owner(), 0);
    a
}

fn allowances() -> (ValidatedAllowance, ValidatedAllowance) {
    let (a0, a1) = assets();
    (
        ValidatedAllowance { asset: a0, amount_decimals: 500 * E8, owner_account: owner() },
        ValidatedAllowance { asset: a1, amount_decimals: 400 * E8, owner_account: owner() },
    )
}

fn op() -> TreasuryManagerOperation {
    TreasuryManagerOperation { operation: Operation::Deposit, step: Step { index: 0, is_final: false } }
}

#[test]
fn deposit_amounts_take_two_fees() {
    let (al0, al1) = allowances();
    assert_eq!(deposit_amount(&al0), 500 * E8 - 2 * FEE_SNS);
    let pool = add_pool_request(&al0, &al1);
    assert_eq!(pool.token_0, "IC.rdmx6-jaaaa-aaaaa-aaadq-cai");
    assert_eq!(pool.token_1, "IC.ryjl3-tyaaa-aaaaa-aaaba-cai");
    assert_eq!(pool.amount_0, NatValue::from_u64(500 * E8 - 2 * FEE_SNS));
    assert_eq!(pool.amount_1, NatValue::from_u64(400 * E8 - 2 * FEE_ICP));
    assert_eq!(pool.lp_fee_bps, Some(30));
    let small = ValidatedAllowance { amount_decimals: FEE_SNS, ..al0 };
    assert_eq!(deposit_amount(&small), 0);
    let amounts = add_liquidity_amounts_request(&al0, &al1);
    assert_eq!(amounts.amount, NatValue::from_u64(500 * E8 - 2 * FEE_SNS));
    let add = add_liquidity_request(&al0, &al1, &NatValue::from_u64(77));
    assert_eq!(add.amount_1, NatValue::from_u64(77));
    assert_eq!(add.tx_id_0, None);
}

#[test]
fn approval_is_the_allowance_less_one_fee() {
    let (al0, _) = allowances();
    let args = approve_request(&al0);
    assert_eq!(args.amount, NatValue::from_u64(500 * E8 - FEE_SNS));
    assert_eq!(args.fee, Some(NatValue::from_u64(FEE_SNS)));
    assert_eq!(args.expected_allowance, Some(NatValue::from_u64(0)));
    assert_eq!(args.expires_at, Some(u64::MAX));
    assert_eq!(args.spender.owner.to_text(), "2ipq2-uqaaa-aaaar-qailq-cai");
    assert_eq!(args.method(), "icrc2_approve");
}

#[test]
fn valid_allowance_funds_the_deposit() {
    let a = Allowance {
        asset: asset("DAO", sns_ledger(), FEE_SNS),
        amount_decimals: NatValue::from_u64(10 * FEE_SNS),
        owner_account: owner(),
    };
    let v = ValidatedAllowance::try_from_allowance(a).unwrap();
    let put_in = deposit_amount(&v);
    assert_eq!(put_in, 8 * FEE_SNS);
    assert_eq!(put_in + 2 * FEE_SNS, v.amount_decimals);
    assert_eq!(approve_request(&v).amount, NatValue::from_u64(put_in + FEE_SNS));
}

#[test]
fn request_builders() {
    assert_eq!(kong_token(&icp_ledger()), "IC.ryjl3-tyaaa-aaaaa-aaaba-cai");
    assert_eq!(add_token_request(&icp_ledger()).token, "IC.ryjl3-tyaaa-aaaaa-aaaba-cai");
    assert_eq!(update_token_request(&sns_ledger()).token, "IC.rdmx6-jaaaa-aaaaa-aaadq-cai");
    assert_eq!(user_balances_request(&principal("2vxsx-fae")).principal_id, "2vxsx-fae");
    let (a0, _) = assets();
    let t = transfer_request(&a0, 5, owner(), 9, None);
    assert_eq!(t.amount, NatValue::from_u64(5));
    assert_eq!(t.fee, Some(NatValue::from_u64(FEE_SNS)));
    assert_eq!(t.created_at_time, Some(9));
}

#[test]
fn existing_tokens_are_not_an_error() {
    let token = "IC.ryjl3-tyaaa-aaaaa-aaaba-cai".to_string();
    assert!(add_token_outcome(&token, Ok(())).is_ok());
    let exists = Error::new_backend(format!("Token {} already exists", token));
    assert!(add_token_outcome(&token, Err(exists)).is_ok());
    let other = Error::new_backend("Token IC.other already exists".to_string());
    assert_eq!(add_token_outcome(&token, Err(other.clone())), Err(other));
    let precondition = Error::new_precondition(format!("Token {} already exists", token));
    assert!(add_token_outcome(&token, Err(precondition)).is_err());
}

#[test]
fn lp_balance_selection() {
    let lp = "DAO_ICP".to_string();
    assert_eq!(select_lp_balance(&lp, vec![]), Ok(NatValue::from_u64(0)));
    let balances = vec![
        ("DAO_ICP".to_string(), Ok(NatValue::from_u64(1))),
        ("X_ICP".to_string(), Ok(NatValue::from_u64(2))),
        ("DAO_ICP".to_string(), Ok(NatValue::from_u64(3))),
    ];
    assert_eq!(select_lp_balance(&lp, balances), Ok(NatValue::from_u64(3)));
    let missing = vec![("X_ICP".to_string(), Ok(NatValue::from_u64(2)))];
    let err = select_lp_balance(&lp, missing).unwrap_err();
    assert_eq!(err.message, "Failed to get LP balance for DAO_ICP.");
    assert_eq!(err.code, 0);
    assert_eq!(err.kind, ErrorKind::Backend);
    let broken = vec![
        ("A".to_string(), Err("bad".to_string())),
        ("DAO_ICP".to_string(), Ok(NatValue::from_u64(2))),
        ("B".to_string(), Err("worse".to_string())),
    ];
    let err = select_lp_balance(&lp, broken).unwrap_err();
    assert_eq!(err.kind, ErrorKind::Backend);
    assert_eq!(err.code, 0);
    assert_eq!(
        err.message,
        "Failed to convert balances: \"Failed to convert balance for A: bad, Failed to convert balance for B: worse\""
    );
}

fn metadata(symbol: &str, fee: u64) -> Vec<(String, MetadataValue)> {
    vec![
        ("icrc1:decimals".to_string(), MetadataValue::Nat(NatValue::from_u64(8))),
        ("icrc1:symbol".to_string(), MetadataValue::Text(symbol.to_string())),
        ("icrc1:fee".to_string(), MetadataValue::Nat(NatValue::from_u64(fee))),
    ]
}

#[test]
fn ledger_metadata_refreshes_symbol_and_fee() {
    let (a0, _) = assets();
    let updated = apply_ledger_metadata(a0, &metadata("NEW", 7)).unwrap();
    assert_eq!(updated.symbol(), "NEW");
    assert_eq!(updated.ledger_fee_decimals(), 7);
    let kept = apply_ledger_metadata(a0, &metadata("NOT VALID!", 7)).unwrap();
    assert_eq!(kept.symbol(), "DAO");
    assert_eq!(kept.ledger_fee_decimals(), 7);
    let no_fee = vec![("icrc1:symbol".to_string(), MetadataValue::Text("X".to_string()))];
    let err = apply_ledger_metadata(a0, &no_fee).unwrap_err();
    assert_eq!(err.kind, ErrorKind::Postcondition);
    assert_eq!(
        err.message,
        "Ledger rdmx6-jaaaa-aaaaa-aaadq-cai icrc1_metadata response does not have an `icrc1:fee`."
    );
    let text_fee = vec![
        ("icrc1:symbol".to_string(), MetadataValue::Text("X".to_string())),
        ("icrc1:fee".to_string(), MetadataValue::Text("1".to_string())),
    ];
    assert!(apply_ledger_metadata(a0, &text_fee).is_err());
    let err = apply_ledger_metadata(a0, &vec![]).unwrap_err();
    assert_eq!(
        err.message,
        "Ledger rdmx6-jaaaa-aaaaa-aaadq-cai icrc1_metadata response does not have an `icrc1:symbol`."
    );
}

#[test]
fn ledger_balances() {
    assert_eq!(ledger_balance_from_reply(&NatValue::from_u64(5)), Ok(5));
    let err = ledger_balance_from_reply(&NatValue::from_digits(vec![1, 1])).unwrap_err();
    assert_eq!(err.kind, ErrorKind::Postcondition);
    assert_eq!(combine_balance_results(Ok(1), Ok(2)), Ok((1, 2)));
    let e0 = Error::new_backend("a".to_string());
    let e1 = Error::new_backend("b".to_string());
    assert_eq!(combine_balance_results(Err(e0.clone()), Ok(2)), Err(vec![e0.clone()]));
    assert_eq!(combine_balance_results(Err(e0.clone()), Err(e1.clone())), Err(vec![e0.clone(), e1.clone()]));
    assert_eq!(combine_step_results(Err(vec![e0.clone()]), Err(vec![e1.clone()])), Err(vec![e0, e1]));
    assert_eq!(combine_step_results(Ok(()), Ok(())), Ok(()));
}

fn remove_liquidity_reply(claim_ids: Vec<u64>) -> RemoveLiquidityReply {
    RemoveLiquidityReply {
        tx_id: 0,
        request_id: 0,
        status: "Success".to_string(),
        symbol: "DAO_ICP".to_string(),
        chain_0: String::new(),
        address_0: String::new(),
        symbol_0: "DAO".to_string(),
        amount_0: NatValue::from_u64(100),
        lp_fee_0: NatValue::from_u64(11),
        chain_1: String::new(),
        address_1: String::new(),
        symbol_1: "ICP".to_string(),
        amount_1: NatValue::from_u64(200),
        lp_fee_1: NatValue::from_u64(12),
        remove_lp_token_amount: NatValue::from_u64(1),
        transfer_ids: vec![],
        claim_ids,
        ts: 0,
    }
}

#[test]
fn withdrawal_amounts_include_lp_fees() {
    assert_eq!(withdrawal_from_reply(&remove_liquidity_reply(vec![])), Ok((111, 212)));
    let errs = withdrawal_from_reply(&remove_liquidity_reply(vec![4, 5])).unwrap_err();
    assert_eq!(errs.len(), 1);
    assert_eq!(errs[0].code, ERROR_CODE_BACKEND);
    assert_eq!(
        errs[0].message,
        "Withdrawal from DEX might not be complete, returned claims: 4, 5."
    );
}

#[test]
fn remove_liquidity_amounts_give_balances() {
    let reply = RemoveLiquidityAmountsReply {
        symbol: String::new(),
        chain_0: String::new(),
        address_0: String::new(),
        symbol_0: String::new(),
        amount_0: NatValue::from_u64(3),
        lp_fee_0: NatValue::from_u64(0),
        chain_1: String::new(),
        address_1: String::new(),
        symbol_1: String::new(),
        amount_1: NatValue::from_u64(4),
        lp_fee_1: NatValue::from_u64(0),
        remove_lp_token_amount: NatValue::from_u64(0),
    };
    assert_eq!(remove_liquidity_amounts_balances(&reply), Ok((3, 4)));
}

#[test]
fn claims_are_matched_to_ledgers() {
    let a = adaptor();
    let (a0, a1) = assets();
    let got = a
        .claim_outcome(7, Ok((Some("ryjl3-tyaaa-aaaaa-aaaba-cai".to_string()), NatValue::from_u64(9))))
        .unwrap();
    assert_eq!(got, (a1, 9));
    let got = a
        .claim_outcome(7, Ok((Some("rdmx6-jaaaa-aaaaa-aaadq-cai".to_string()), NatValue::from_u64(1))))
        .unwrap();
    assert_eq!(got, (a0, 1));
    assert_eq!(
        a.claim_outcome(7, Ok((None, NatValue::from_u64(1)))).unwrap_err().message,
        "Claim for claim ID 7 returned no ledger canister ID."
    );
    assert_eq!(
        a.claim_outcome(7, Ok((Some("aaaaa-aa".to_string()), NatValue::from_u64(1))))
            .unwrap_err()
            .message,
        "Cannot identify asset for ledger `aaaaa-aa` for claim ID 7"
    );
    assert!(a
        .claim_outcome(8, Ok((Some("ryjl3-tyaaa-aaaaa-aaaba-cai".to_string()), NatValue::from_digits(vec![0, 1]))))
        .unwrap_err()
        .message
        .starts_with("Failed to decode amount for claim ID 8: Error parsing a Nat value"));
}

#[test]
fn pool_exists_errors_lead_to_top_up() {
    let a = adaptor();
    assert_eq!(a.lp_token(), "DAO_ICP");
    assert!(a.is_pool_already_deployed_error(&"Pool DAO_ICP already exists".to_string()));
    assert!(a.is_pool_already_deployed_error(&"LP token DAO_ICP already exists".to_string()));
    assert!(!a.is_pool_already_deployed_error(&"Pool X_ICP already exists".to_string()));
    assert!(a.should_top_up(&Err(Error::new_backend("Pool DAO_ICP already exists".to_string()))));
    assert!(!a.should_top_up(&Err(Error::new_postcondition("Pool DAO_ICP already exists".to_string()))));
    assert!(!a.should_top_up(&Ok(())));
}

#[test]
fn return_amounts_leave_the_fee() {
    let a = adaptor();
    assert_eq!(a.return_amounts(100_000, 5), (100_000 - FEE_SNS, 0));
}

#[test]
fn deposits_are_checked_before_any_call() {
    let a = adaptor();
    let request = DepositRequest {
        allowances: vec![
            Allowance {
                asset: asset("DAO", sns_ledger(), FEE_SNS),
                amount_decimals: NatValue::from_u64(500 * E8),
                owner_account: owner(),
            },
            Allowance {
                asset: asset("ICP", icp_ledger(), FEE_ICP),
                amount_decimals: NatValue::from_u64(400 * E8),
                owner_account: owner(),
            },
        ],
    };
    let (al0, al1) = a.prepare_deposit(0, request).unwrap();
    assert_eq!(al0.amount_decimals, 500 * E8);
    assert_eq!(al1.amount_decimals, 400 * E8);
    let other = DepositRequest {
        allowances: vec![
            Allowance {
                asset: asset("CHAT", principal("mxzaz-hqaaa-aaaar-qaada-cai"), FEE_SNS),
                amount_decimals: NatValue::from_u64(500 * E8),
                owner_account: owner(),
            },
            Allowance {
                asset: asset("ICP", icp_ledger(), FEE_ICP),
                amount_decimals: NatValue::from_u64(400 * E8),
                owner_account: owner(),
            },
        ],
    };
    let errs = a.prepare_deposit(0, other).unwrap_err();
    assert_eq!(errs[0].kind, ErrorKind::Precondition);
    assert_eq!(
        errs[0].message,
        "This KongSwapAdaptor only supports DAO:ICP as token_{0,1} (got ledger_0 mxzaz-hqaaa-aaaar-qaada-cai, ledger_1 ryjl3-tyaaa-aaaaa-aaaba-cai)."
    );
    let errs = a.prepare_deposit(0, DepositRequest { allowances: vec![] }).unwrap_err();
    assert_eq!(
        errs[0].message,
        "Failed to validate DepositRequest: KongSwapAdaptor requires some allowances."
    );
}

#[test]
fn withdrawals_are_checked_before_any_call() {
    let a = adaptor();
    let v = a.prepare_withdraw(0, WithdrawRequest { withdraw_accounts: None }).unwrap();
    assert_eq!(v.withdraw_account_0, owner());
    let errs = a
        .prepare_withdraw(
            0,
            WithdrawRequest { withdraw_accounts: Some(Accounts { ledger_id_to_account: vec![] }) },
        )
        .err()
        .unwrap();
    assert_eq!(errs[0].kind, ErrorKind::Precondition);
}

#[test]
fn recording_a_call_appends_to_the_audit_trail() {
    let mut a = adaptor();
    let out: Result<u8, Error> = a.record_transaction(
        op(),
        icp_ledger(),
        "icrc1_transfer".to_string(),
        5,
        "transfer".to_string(),
        Ok(Ok((TransactionWitness::NonLedger("w".to_string()), 3u8))),
    );
    assert_eq!(out, Ok(3));
    let failed: Result<u8, Error> = a.record_transaction(
        op(),
        icp_ledger(),
        "icrc1_transfer".to_string(),
        6,
        "transfer".to_string(),
        Err("unreachable".to_string()),
    );
    let err = failed.unwrap_err();
    assert_eq!(err.code, ERROR_CODE_CALL);
    assert_eq!(err.kind, ErrorKind::Call { method: "icrc1_transfer".to_string(), canister_id: icp_ledger() });
    let trail = a.get_audit_trail();
    assert_eq!(trail.len(), 2);
    assert_eq!(trail[0].result, Ok(TransactionWitness::NonLedger("w".to_string())));
    assert_eq!(trail[1].result, Err(err));
    assert_eq!(trail[1].timestamp_ns, 6);
    let refused: Result<u8, Error> = a.record_transaction(
        op(),
        kongswap_adaptor::principal::kong_backend_canister_id(),
        "add_pool".to_string(),
        7,
        "pool".to_string(),
        Ok(Err("Token_0 transfer failed".to_string())),
    );
    assert_eq!(
        refused,
        Err(Error {
            code: ERROR_CODE_TEMPORARILY_UNAVAILABLE,
            message: "Token_0 transfer failed".to_string(),
            kind: ErrorKind::Backend,
        })
    );
}

#[test]
fn witnesses_list_the_transfers() {
    let reply = TransferIdReply {
        transfer_id: 1,
        transfer: TransferReply::IC(ICTransferReply {
            chain: "IC".to_string(),
            symbol: "ICP".to_string(),
            is_send: true,
            amount: NatValue::from_u64(10),
            canister_id: "ryjl3-tyaaa-aaaaa-aaaba-cai".to_string(),
            block_index: NatValue::from_u64(3),
        }),
    };
    match ledger_witness(&vec![reply]) {
        TransactionWitness::Ledger(ts) => {
            assert_eq!(ts.len(), 1);
            assert_eq!(ts[0].ledger_canister_id, "ryjl3-tyaaa-aaaaa-aaaba-cai");
            assert_eq!(ts[0].amount_decimals, NatValue::from_u64(10));
            assert_eq!(ts[0].block_index, NatValue::from_u64(3));
        }
        _ => panic!("expected a ledger witness"),
    }
    match approve_witness("x".to_string(), &NatValue::from_u64(1), &NatValue::from_u64(2)) {
        TransactionWitness::Ledger(ts) => assert_eq!(ts[0].block_index, NatValue::from_u64(2)),
        _ => panic!("expected a ledger witness"),
    }
}
