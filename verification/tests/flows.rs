use kongswap_adaptor::flow::{
    start_deposit, start_issue_rewards, start_refresh, start_withdraw, Action, Call, CallRequest,
    Flow, Reply, Stage,
};
use kongswap_adaptor::kong_types::{MetadataValue, RemoveLiquidityAmountsReply, RemoveLiquidityReply};
use kongswap_adaptor::natural::NatValue;
use kongswap_adaptor::principal::PrincipalId;
use kongswap_adaptor::state::KongSwapAdaptor;
use kongswap_adaptor::types::{
    Account, Allowance, Asset, DepositRequest, Error, ErrorKind, Operation, TransactionWitness,
    WithdrawRequest,
};
use kongswap_adaptor::validation::ValidatedAsset;

const FEE_SNS: u64 = 10_500;
const FEE_ICP: u64 = 9_500;
const E8: u64 = 100_000_000;
const NOW: u64 = 1_000_000_000;

fn principal(text: &str) -> PrincipalId {
    PrincipalId::from_text(text).unwrap()
}

fn sns_ledger() -> PrincipalId {
    principal("rdmx6-jaaaa-aaaaa-aaadq-cai")
}

fn icp_ledger() -> PrincipalId {
    principal("ryjl3-tyaaa-aaaaa-aaaba-cai")
}

fn kong_backend() -> PrincipalId {
    principal("2ipq2-uqaaa-aaaar-qailq-cai")
}

fn owner() -> Account {
    Account { owner: principal("2vxsx-fae"), subaccount: None }
}

fn asset(symbol: &str, ledger: PrincipalId, fee: u64) -> Asset {
    Asset::Token {
        symbol: symbol.to_string(),
        ledger_canister_id: ledger,
        ledger_fee_decimals: NatValue::from_u64(fee),
    }
}

fn adaptor() -> KongSwapAdaptor {
    let mut a = KongSwapAdaptor::new(principal("jexlm-gaaaa-aaaar-qalmq-cai"));
    let a0 = ValidatedAsset::try_from_asset(asset("DAO", sns_ledger(), FEE_SNS)).unwrap();
    let a1 = ValidatedAsset::try_from_asset(asset("ICP", icp_ledger(), FEE_ICP)).unwrap();
    a.initialize(a0, a1, owner(), owner(), 0);
    a
}

fn deposit_request() -> DepositRequest {
    DepositRequest {
        allowances: vec![
            Allowance {
                asset: asset("DAO", sns_ledger(), FEE_SNS),
                amount_decimals: NatValue::from_u64(500 * E8),
                owner_account: owner(),
            },
            Allowance {
                asset: asset("ICP", icp_ledger(), FEE_ICP),
                amount_decimals: NatValue::from_u64(400 * E8),
                owner_account: owner(),
            },
        ],
    }
}

fn calls(action: Action) -> Vec<CallRequest> {
    match action {
        Action::Perform(rs) => rs,
        _ => panic!("expected calls"),
    }
}

fn finished(action: Action) -> Result<(), Vec<Error>> {
    match action {
        Action::Finish(out) => out,
        _ => panic!("expected the end of the operation"),
    }
}

fn started(res: (Option<Flow>, Action)) -> (Flow, Vec<CallRequest>) {
    let (flow, action) = res;
    (flow.unwrap(), calls(action))
}

fn metadata(symbol: &str, fee: u64) -> Vec<(String, MetadataValue)> {
    vec![
        ("icrc1:decimals".to_string(), MetadataValue::Nat(NatValue::from_u64(8))),
        ("icrc1:symbol".to_string(), MetadataValue::Text(symbol.to_string())),
        ("icrc1:fee".to_string(), MetadataValue::Nat(NatValue::from_u64(fee))),
    ]
}

#[test]
fn deposit_starts_with_the_first_approval() {
    let a = adaptor();
    let (flow, rs) = started(start_deposit(&a, NOW, deposit_request()));
    assert_eq!(flow.stage, Stage::Approve(0));
    assert_eq!(rs.len(), 1);
    assert_eq!(rs[0].canister_id, sns_ledger());
    assert_eq!(rs[0].operation.operation, Operation::Deposit);
    assert_eq!(rs[0].operation.step.index, 0);
    assert!(!rs[0].operation.step.is_final);
    assert_eq!(
        rs[0].human_readable,
        "Calling ICRC2 approve to set KongSwapBackend as spender for DAO."
    );
    match &rs[0].call {
        Call::Approve(args) => {
            assert_eq!(args.amount, NatValue::from_u64(500 * E8 - FEE_SNS));
            assert_eq!(args.spender.owner, kong_backend());
        }
        _ => panic!("expected an approval"),
    }
}

#[test]
fn deposit_of_other_tokens_is_refused_before_any_call() {
    let a = adaptor();
    let mut request = deposit_request();
    request.allowances.swap(0, 1);
    let (flow, action) = start_deposit(&a, NOW, request);
    assert!(flow.is_none());
    let errs = finished(action).unwrap_err();
    assert_eq!(errs.len(), 1);
    assert_eq!(errs[0].kind, ErrorKind::Precondition);
}

#[test]
fn deposit_goes_from_one_approval_to_the_next() {
    let mut a = adaptor();
    let (mut flow, _) = started(start_deposit(&a, NOW, deposit_request()));
    let rs = calls(flow.resume(&mut a, vec![Reply::Approve(Ok(NatValue::from_u64(1)))], NOW));
    assert_eq!(flow.stage, Stage::Approve(1));
    assert_eq!(rs.len(), 1);
    assert_eq!(rs[0].canister_id, icp_ledger());
    assert_eq!(rs[0].operation.step.index, 1);
    assert!(matches!(rs[0].call, Call::Approve(_)));
}

#[test]
fn failed_approval_returns_what_the_adaptor_holds() {
    let mut a = adaptor();
    let (mut flow, _) = started(start_deposit(&a, NOW, deposit_request()));
    let failure = Error::new_backend("no".to_string());
    let rs = calls(flow.resume(&mut a, vec![Reply::Approve(Err(failure))], NOW));
    assert_eq!(flow.stage, Stage::ReturnBalances);
    assert_eq!(rs.len(), 2);
    assert!(matches!(rs[0].call, Call::BalanceOf(_)));
    assert!(matches!(rs[1].call, Call::BalanceOf(_)));
    assert_eq!(rs[0].canister_id, sns_ledger());
    assert_eq!(rs[1].canister_id, icp_ledger());
}

#[test]
fn withdrawal_starts_with_the_lp_balance() {
    let a = adaptor();
    let (flow, rs) = started(start_withdraw(&a, NOW, WithdrawRequest { withdraw_accounts: None }));
    assert_eq!(flow.stage, Stage::WithdrawLpBalance);
    assert_eq!(rs.len(), 1);
    assert_eq!(rs[0].canister_id, kong_backend());
    assert_eq!(
        rs[0].human_readable,
        "Calling KongSwapBackend.user_balances to get LP balances."
    );
    match &rs[0].call {
        Call::UserBalances(args) => assert_eq!(args.principal_id, "jexlm-gaaaa-aaaar-qalmq-cai"),
        _ => panic!("expected the LP balances"),
    }
}

#[test]
fn operations_are_refused_while_a_deposit_holds_the_lock() {
    let mut a = adaptor();
    let (_flow, rs) = started(start_deposit(&a, NOW, deposit_request()));
    let r = &rs[0];
    let recorded: Result<NatValue, Error> = a.record_transaction(
        r.operation,
        r.canister_id,
        "icrc2_approve".to_string(),
        NOW,
        r.human_readable.clone(),
        Err("pending".to_string()),
    );
    assert!(recorded.is_err());
    let (flow, action) = start_withdraw(&a, NOW + 1, WithdrawRequest { withdraw_accounts: None });
    assert!(flow.is_none());
    let errs = finished(action).unwrap_err();
    assert_eq!(errs[0].kind, ErrorKind::TemporarilyUnavailable);
    assert_eq!(errs[0].message, "Canister state is locked. Please try again in 2699 seconds.");
    let (_, action) = start_deposit(&a, NOW, deposit_request());
    let errs = finished(action).unwrap_err();
    assert_eq!(errs.len(), 1);
    assert_eq!(errs[0].message, "Canister state is locked. Please try again in 2700 seconds.");
    let (flow, _) = start_issue_rewards(&a, NOW + 1);
    assert!(flow.is_none());
    let (flow, _) = start_refresh(&a, NOW + 1);
    assert!(flow.is_none());
}

#[test]
fn rewards_return_what_exceeds_the_fee_then_refresh() {
    let mut a = adaptor();
    let (mut flow, rs) = started(start_issue_rewards(&a, NOW));
    assert_eq!(flow.stage, Stage::ReturnBalances);
    assert_eq!(rs.len(), 2);
    assert_eq!(rs[0].operation.step.index, 0);
    assert_eq!(rs[1].operation.step.index, 1);
    assert_eq!(rs[0].operation.operation, Operation::IssueReward);
    let replies = vec![
        Reply::BalanceOf(Ok(NatValue::from_u64(100_000))),
        Reply::BalanceOf(Ok(NatValue::from_u64(5))),
    ];
    let rs = calls(flow.resume(&mut a, replies, NOW));
    assert_eq!(flow.stage, Stage::ReturnTransfers);
    assert_eq!(rs.len(), 1);
    assert_eq!(rs[0].canister_id, sns_ledger());
    assert_eq!(rs[0].operation.step.index, 2);
    match &rs[0].call {
        Call::Transfer(args) => {
            assert_eq!(args.amount, NatValue::from_u64(100_000 - FEE_SNS));
            assert_eq!(args.to, owner());
            assert_eq!(args.fee, Some(NatValue::from_u64(FEE_SNS)));
            assert_eq!(args.created_at_time, Some(NOW));
        }
        _ => panic!("expected a transfer"),
    }
    let action = flow.resume(&mut a, vec![Reply::Transfer(Ok(NatValue::from_u64(7)))], NOW);
    assert!(matches!(action, Action::RefreshBalances));
    assert_eq!(flow.stage, Stage::ReturnRefresh);
    assert_eq!(finished(flow.resume(&mut a, vec![], NOW)), Ok(()));
    assert_eq!(flow.stage, Stage::Done);
}

#[test]
fn failed_transfer_ends_the_rewards_with_its_error() {
    let mut a = adaptor();
    let (mut flow, _) = started(start_issue_rewards(&a, NOW));
    let replies = vec![
        Reply::BalanceOf(Ok(NatValue::from_u64(100_000))),
        Reply::BalanceOf(Ok(NatValue::from_u64(100_000))),
    ];
    let rs = calls(flow.resume(&mut a, replies, NOW));
    assert_eq!(rs.len(), 2);
    assert_eq!(rs[1].canister_id, icp_ledger());
    let failure = Error::new_backend("too old".to_string());
    let out = finished(flow.resume(
        &mut a,
        vec![Reply::Transfer(Ok(NatValue::from_u64(1))), Reply::Transfer(Err(failure.clone()))],
        NOW,
    ));
    assert_eq!(out, Err(vec![failure]));
}

#[test]
fn nothing_to_return_goes_straight_to_the_refresh() {
    let mut a = adaptor();
    let (mut flow, _) = started(start_issue_rewards(&a, NOW));
    let replies = vec![
        Reply::BalanceOf(Ok(NatValue::from_u64(FEE_SNS))),
        Reply::BalanceOf(Ok(NatValue::from_u64(0))),
    ];
    assert!(matches!(flow.resume(&mut a, replies, NOW), Action::RefreshBalances));
}

#[test]
fn refresh_updates_the_assets_and_balances() {
    let mut a = adaptor();
    let (mut flow, rs) = started(start_refresh(&a, NOW));
    assert_eq!(flow.stage, Stage::Metadata(0));
    assert_eq!(rs.len(), 2);
    assert_eq!(rs[0].canister_id, kong_backend());
    assert!(matches!(rs[0].call, Call::UpdateToken(_)));
    assert_eq!(rs[1].canister_id, sns_ledger());
    assert!(matches!(rs[1].call, Call::Metadata));
    let rs = calls(flow.resume(
        &mut a,
        vec![Reply::UpdateToken(Ok(())), Reply::Metadata(Ok(metadata("DAO", 20_000)))],
        NOW,
    ));
    assert_eq!(flow.stage, Stage::Metadata(1));
    assert_eq!(rs[1].canister_id, icp_ledger());
    assert_eq!(a.get_cached_balances().asset_0.ledger_fee_decimals(), 20_000);
    let rs = calls(flow.resume(
        &mut a,
        vec![Reply::UpdateToken(Ok(())), Reply::Metadata(Ok(metadata("ICP", FEE_ICP)))],
        NOW,
    ));
    assert_eq!(flow.stage, Stage::RefreshLpBalance);
    assert!(matches!(rs[0].call, Call::UserBalances(_)));
    let lp = vec![(a.lp_token(), Ok(NatValue::from_u64(42)))];
    let rs = calls(flow.resume(&mut a, vec![Reply::UserBalances(Ok(lp))], NOW));
    assert_eq!(flow.stage, Stage::RemoveLiquidityAmounts);
    match &rs[0].call {
        Call::RemoveLiquidityAmounts(args) => {
            assert_eq!(args.remove_lp_token_amount, NatValue::from_u64(42));
            assert_eq!(args.token_0, "DAO");
            assert_eq!(args.token_1, "ICP");
        }
        _ => panic!("expected the amounts of a removal"),
    }
    let reply = RemoveLiquidityAmountsReply {
        symbol: String::new(),
        chain_0: String::new(),
        address_0: String::new(),
        symbol_0: String::new(),
        amount_0: NatValue::from_u64(300),
        lp_fee_0: NatValue::from_u64(1),
        chain_1: String::new(),
        address_1: String::new(),
        symbol_1: String::new(),
        amount_1: NatValue::from_u64(400),
        lp_fee_1: NatValue::from_u64(2),
        remove_lp_token_amount: NatValue::from_u64(42),
    };
    let out = finished(flow.resume(&mut a, vec![Reply::RemoveLiquidityAmounts(Ok(reply))], NOW + 5));
    assert_eq!(out, Ok(()));
    let b = a.get_cached_balances();
    assert_eq!(b.timestamp_ns, NOW + 5);
    assert_eq!((b.balance_0_decimals, b.balance_1_decimals), (300, 400));
}

#[test]
fn refresh_without_the_lp_token_ends_with_its_error() {
    let mut a = adaptor();
    let (mut flow, _) = started(start_refresh(&a, NOW));
    let unreachable = Error::new_backend("ledger down".to_string());
    let rs = calls(flow.resume(
        &mut a,
        vec![Reply::UpdateToken(Ok(())), Reply::Metadata(Err(unreachable))],
        NOW,
    ));
    assert_eq!(flow.stage, Stage::RefreshLpBalance);
    assert_eq!(rs.len(), 1);
    let lp = vec![("X_ICP".to_string(), Ok(NatValue::from_u64(2)))];
    let errs = finished(flow.resume(&mut a, vec![Reply::UserBalances(Ok(lp))], NOW)).unwrap_err();
    assert_eq!(errs.len(), 1);
    assert_eq!(errs[0].kind, ErrorKind::Backend);
    assert_eq!(errs[0].message, "Failed to get LP balance for DAO_ICP.");
    assert_eq!(a.get_cached_balances().timestamp_ns, 0);
}

#[test]
fn withdrawal_without_liquidity_checks_claims_then_returns() {
    let mut a = adaptor();
    let (mut flow, _) = started(start_withdraw(&a, NOW, WithdrawRequest { withdraw_accounts: None }));
    let rs = calls(flow.resume(&mut a, vec![Reply::UserBalances(Ok(vec![]))], NOW));
    assert_eq!(flow.stage, Stage::BalancesBeforeClaims);
    assert_eq!(rs.len(), 2);
    assert_eq!(rs[0].operation.step.index, 1);
    let zero = || Reply::BalanceOf(Ok(NatValue::from_u64(0)));
    let rs = calls(flow.resume(&mut a, vec![zero(), zero()], NOW));
    assert_eq!(flow.stage, Stage::Claims);
    match &rs[0].call {
        Call::Claims(principal_id) => assert_eq!(principal_id, "jexlm-gaaaa-aaaar-qalmq-cai"),
        _ => panic!("expected the claims"),
    }
    let rs = calls(flow.resume(&mut a, vec![Reply::Claims(Ok(vec![]))], NOW));
    assert_eq!(flow.stage, Stage::ReturnBalances);
    assert_eq!(rs[0].operation.step.index, 4);
    assert!(matches!(flow.resume(&mut a, vec![zero(), zero()], NOW), Action::RefreshBalances));
    assert_eq!(finished(flow.resume(&mut a, vec![], NOW)), Ok(()));
}

/// Records each call in the audit trail as made and answered, then hands the
/// replies to the operation.
fn answer(a: &mut KongSwapAdaptor, flow: &mut Flow, rs: Vec<CallRequest>, replies: Vec<Reply>) -> Action {
    assert_eq!(rs.len(), replies.len());
    for r in rs {
        let recorded: Result<(), Error> = a.record_transaction(
            r.operation,
            r.canister_id,
            "call".to_string(),
            NOW,
            r.human_readable,
            Ok(Ok((TransactionWitness::NonLedger(String::new()), ()))),
        );
        assert!(recorded.is_ok());
    }
    flow.resume(a, replies, NOW)
}

#[test]
fn happy_deposit_makes_the_calls_in_order_and_releases_the_lock() {
    let mut a = adaptor();
    let (mut flow, rs) = started(start_deposit(&a, NOW, deposit_request()));
    let amount_0 = 500 * E8;
    let amount_1 = 400 * E8;

    let rs = calls(answer(&mut a, &mut flow, rs, vec![Reply::Approve(Ok(NatValue::from_u64(amount_0)))]));
    assert!(matches!(rs[0].call, Call::Approve(_)));
    let rs = calls(answer(&mut a, &mut flow, rs, vec![Reply::Approve(Ok(NatValue::from_u64(amount_1)))]));
    assert_eq!(flow.stage, Stage::BalancesBeforeDeposit);
    assert!(a.check_state_lock(NOW).is_err());

    let before = vec![
        Reply::BalanceOf(Ok(NatValue::from_u64(amount_0 - FEE_SNS))),
        Reply::BalanceOf(Ok(NatValue::from_u64(amount_1 - FEE_ICP))),
    ];
    let rs = calls(answer(&mut a, &mut flow, rs, before));
    assert_eq!(flow.stage, Stage::AddToken(0));
    match &rs[0].call {
        Call::AddToken(args) => assert_eq!(args.token, "IC.rdmx6-jaaaa-aaaaa-aaadq-cai"),
        _ => panic!("expected token 0 to be added"),
    }
    let rs = calls(answer(&mut a, &mut flow, rs, vec![Reply::AddToken(Ok(()))]));
    match &rs[0].call {
        Call::AddToken(args) => assert_eq!(args.token, "IC.ryjl3-tyaaa-aaaaa-aaaba-cai"),
        _ => panic!("expected token 1 to be added"),
    }
    let rs = calls(answer(&mut a, &mut flow, rs, vec![Reply::AddToken(Ok(()))]));
    assert_eq!(flow.stage, Stage::Metadata(0));
    let rs = calls(answer(
        &mut a,
        &mut flow,
        rs,
        vec![Reply::UpdateToken(Ok(())), Reply::Metadata(Ok(metadata("DAO", FEE_SNS)))],
    ));
    assert_eq!(flow.stage, Stage::Metadata(1));
    let rs = calls(answer(
        &mut a,
        &mut flow,
        rs,
        vec![Reply::UpdateToken(Ok(())), Reply::Metadata(Ok(metadata("ICP", FEE_ICP)))],
    ));
    assert_eq!(flow.stage, Stage::AddPool);
    assert_eq!(rs[0].human_readable, "Calling KongSwapBackend.add_pool to add a new pool.");
    match &rs[0].call {
        Call::AddPool(args) => {
            assert_eq!(args.amount_0, NatValue::from_u64(amount_0 - 2 * FEE_SNS));
            assert_eq!(args.amount_1, NatValue::from_u64(amount_1 - 2 * FEE_ICP));
            assert_eq!(args.lp_fee_bps, Some(30));
        }
        _ => panic!("expected the pool to be added"),
    }
    let rs = calls(answer(&mut a, &mut flow, rs, vec![Reply::AddPool(Ok(()))]));
    assert_eq!(flow.stage, Stage::BalancesAfterDeposit);
    let zero = || Reply::BalanceOf(Ok(NatValue::from_u64(0)));
    let rs = calls(answer(&mut a, &mut flow, rs, vec![zero(), zero()]));
    assert_eq!(flow.stage, Stage::ReturnBalances);
    let action = answer(&mut a, &mut flow, rs, vec![zero(), zero()]);
    assert!(matches!(action, Action::RefreshBalances));
    // The refresh is refused while the deposit holds the lock.
    assert!(start_refresh(&a, NOW).0.is_none());
    assert_eq!(finished(flow.resume(&mut a, vec![], NOW)), Ok(()));

    let trail = a.get_audit_trail();
    assert_eq!(trail.len(), 15);
    for (i, t) in trail.iter().enumerate() {
        assert_eq!(t.operation.operation, Operation::Deposit);
        assert_eq!(t.operation.step.index, i);
        assert_eq!(t.operation.step.is_final, i == 14);
    }
    assert!(a.check_state_lock(NOW).is_ok());
}

#[test]
fn existing_pool_is_topped_up() {
    let mut a = adaptor();
    let (mut flow, _) = started(start_deposit(&a, NOW, deposit_request()));
    flow.stage = Stage::AddPool;
    let exists = Error::new_backend("Pool DAO_ICP already exists".to_string());
    let rs = calls(flow.resume(&mut a, vec![Reply::AddPool(Err(exists))], NOW));
    assert_eq!(flow.stage, Stage::AddLiquidityAmounts);
    match &rs[0].call {
        Call::AddLiquidityAmounts(args) => {
            assert_eq!(args.amount, NatValue::from_u64(500 * E8 - 2 * FEE_SNS))
        }
        _ => panic!("expected an estimate of the liquidity to add"),
    }
}

#[test]
fn failed_add_pool_is_reported_after_returning_the_assets() {
    let mut a = adaptor();
    let (mut flow, _) = started(start_deposit(&a, NOW, deposit_request()));
    flow.stage = Stage::AddPool;
    let failure = Error::new_backend("Token_0 transfer failed".to_string());
    assert_eq!(failure.code, kongswap_adaptor::types::ERROR_CODE_TEMPORARILY_UNAVAILABLE);
    assert_eq!(failure.kind, ErrorKind::Backend);
    let rs = calls(flow.resume(&mut a, vec![Reply::AddPool(Err(failure.clone()))], NOW));
    assert_eq!(flow.stage, Stage::BalancesAfterDeposit);
    assert_eq!(rs.len(), 2);
    let zero = || Reply::BalanceOf(Ok(NatValue::from_u64(0)));
    calls(flow.resume(&mut a, vec![zero(), zero()], NOW));
    assert_eq!(flow.stage, Stage::ReturnBalances);
    assert_eq!(flow.dex_result, Some(Err(vec![failure.clone()])));
    let held = vec![
        Reply::BalanceOf(Ok(NatValue::from_u64(500 * E8 - FEE_SNS))),
        Reply::BalanceOf(Ok(NatValue::from_u64(400 * E8 - FEE_ICP))),
    ];
    let rs = calls(flow.resume(&mut a, held, NOW));
    assert_eq!(rs.len(), 2);
    let sent = || Reply::Transfer(Ok(NatValue::from_u64(1)));
    assert!(matches!(flow.resume(&mut a, vec![sent(), sent()], NOW), Action::RefreshBalances));
    assert_eq!(finished(flow.resume(&mut a, vec![], NOW)), Err(vec![failure]));
}

fn removal_with_claims(claim_ids: Vec<u64>) -> RemoveLiquidityReply {
    RemoveLiquidityReply {
        tx_id: 0,
        request_id: 0,
        status: "Success".to_string(),
        symbol: "DAO_ICP".to_string(),
        chain_0: String::new(),
        address_0: String::new(),
        symbol_0: "DAO".to_string(),
        amount_0: NatValue::from_u64(100),
        lp_fee_0: NatValue::from_u64(11),
        chain_1: String::new(),
        address_1: String::new(),
        symbol_1: "ICP".to_string(),
        amount_1: NatValue::from_u64(200),
        lp_fee_1: NatValue::from_u64(12),
        remove_lp_token_amount: NatValue::from_u64(42),
        transfer_ids: vec![],
        claim_ids,
        ts: 0,
    }
}

#[test]
fn withdrawal_keeps_the_errors_of_the_removal_and_of_each_claim() {
    let mut a = adaptor();
    let (mut flow, _) = started(start_withdraw(&a, NOW, WithdrawRequest { withdraw_accounts: None }));
    let lp = vec![(a.lp_token(), Ok(NatValue::from_u64(42)))];
    calls(flow.resume(&mut a, vec![Reply::UserBalances(Ok(lp))], NOW));
    assert_eq!(flow.stage, Stage::BalancesBeforeRemoval);
    let some = || Reply::BalanceOf(Ok(NatValue::from_u64(1_000)));
    calls(flow.resume(&mut a, vec![some(), some()], NOW));
    assert_eq!(flow.stage, Stage::RemoveLiquidity);
    let removal = Reply::RemoveLiquidity(Ok(removal_with_claims(vec![4, 5])));
    calls(flow.resume(&mut a, vec![removal], NOW));
    assert_eq!(flow.stage, Stage::BalancesBeforeClaims);
    let removal_errors = match &flow.dex_result {
        Some(Err(es)) => es.clone(),
        _ => panic!("expected the removal to have failed"),
    };
    assert_eq!(removal_errors.len(), 1);
    assert_eq!(
        removal_errors[0].message,
        "Withdrawal from DEX might not be complete, returned claims: 4, 5."
    );
    calls(flow.resume(&mut a, vec![some(), some()], NOW));
    assert_eq!(flow.stage, Stage::Claims);
    let listed = vec![(4u64, "DAO".to_string()), (5u64, "ICP".to_string())];
    let rs = calls(flow.resume(&mut a, vec![Reply::Claims(Ok(listed))], NOW));
    assert_eq!(flow.stage, Stage::Claim(0));
    assert_eq!(rs.len(), 3);
    assert!(matches!(rs[0].call, Call::Claim(4)));
    let no_ledger = Reply::Claim(Ok((None, NatValue::from_u64(7))));
    let rs = calls(flow.resume(&mut a, vec![no_ledger, some(), some()], NOW));
    assert_eq!(flow.stage, Stage::Claim(1));
    assert!(matches!(rs[0].call, Call::Claim(5)));
    assert_eq!(flow.claim_errors.len(), 1);
    assert_eq!(flow.claim_errors[0].message, "Claim for claim ID 4 returned no ledger canister ID.");
    assert_eq!(flow.claim_errors[0].kind, ErrorKind::Postcondition);
    let credited = Reply::Claim(Ok((Some(sns_ledger().to_text()), NatValue::from_u64(7))));
    calls(flow.resume(&mut a, vec![credited, some(), some()], NOW));
    assert_eq!(flow.stage, Stage::ReturnBalances);
    match &flow.dex_result {
        Some(Err(es)) => {
            assert_eq!(es.len(), 2);
            assert_eq!(es[0], removal_errors[0]);
            assert_eq!(es[1].message, "Claim for claim ID 4 returned no ledger canister ID.");
        }
        _ => panic!("expected the errors of the withdrawal"),
    }
    let zero = || Reply::BalanceOf(Ok(NatValue::from_u64(0)));
    assert!(matches!(flow.resume(&mut a, vec![zero(), zero()], NOW), Action::RefreshBalances));
    assert_eq!(finished(flow.resume(&mut a, vec![], NOW)), Ok(()));
}

#[test]
fn overflowing_removal_is_flagged_once_the_balances_are_known() {
    let mut a = adaptor();
    let (mut flow, _) = started(start_withdraw(&a, NOW, WithdrawRequest { withdraw_accounts: None }));
    let lp = vec![(a.lp_token(), Ok(NatValue::from_u64(42)))];
    calls(flow.resume(&mut a, vec![Reply::UserBalances(Ok(lp))], NOW));
    let some = || Reply::BalanceOf(Ok(NatValue::from_u64(1_000)));
    calls(flow.resume(&mut a, vec![some(), some()], NOW));
    let mut removal = removal_with_claims(vec![]);
    removal.amount_0 = NatValue::from_u64(u64::MAX);
    calls(flow.resume(&mut a, vec![Reply::RemoveLiquidity(Ok(removal))], NOW));
    assert_eq!(flow.stage, Stage::BalancesAfterRemoval);
    assert!(flow.removal_overflows);
    assert!(flow.removal_overflows_on(&vec![some(), some()]));
    let failed = vec![Reply::BalanceOf(Err(Error::new_backend("down".to_string()))), some()];
    assert!(!flow.removal_overflows_on(&failed));
    calls(flow.resume(&mut a, failed, NOW));
    assert_eq!(flow.stage, Stage::BalancesBeforeClaims);
}

#[test]
fn clean_removal_that_fits_is_not_flagged() {
    let mut a = adaptor();
    let (mut flow, _) = started(start_withdraw(&a, NOW, WithdrawRequest { withdraw_accounts: None }));
    let lp = vec![(a.lp_token(), Ok(NatValue::from_u64(42)))];
    calls(flow.resume(&mut a, vec![Reply::UserBalances(Ok(lp))], NOW));
    let some = || Reply::BalanceOf(Ok(NatValue::from_u64(1_000)));
    calls(flow.resume(&mut a, vec![some(), some()], NOW));
    calls(flow.resume(&mut a, vec![Reply::RemoveLiquidity(Ok(removal_with_claims(vec![])))], NOW));
    assert!(!flow.removal_overflows);
    assert!(!flow.removal_overflows_on(&vec![some(), some()]));
    calls(flow.resume(&mut a, vec![some(), some()], NOW));
    assert_eq!(flow.dex_result, Some(Ok(())));
}
