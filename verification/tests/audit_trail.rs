use kongswap_adaptor::audit::OperationContext;
use kongswap_adaptor::natural::NatValue;
use kongswap_adaptor::principal::PrincipalId;
use kongswap_adaptor::state::KongSwapAdaptor;
use kongswap_adaptor::types::{
    Account, Asset, Operation, StableTransaction, Step, TransactionWitness,
    TreasuryManagerOperation,
};
use kongswap_adaptor::validation::ValidatedAsset;

fn principal(text: &str) -> PrincipalId {
    PrincipalId::from_text(text).unwrap()
}

fn test_account() -> Account {
    Account { owner: principal("jexlm-gaaaa-aaaar-qalmq-cai"), subaccount: None }
}

fn create_test_adaptor() -> KongSwapAdaptor {
    KongSwapAdaptor::new(principal("rdmx6-jaaaa-aaaaa-aaadq-cai"))
}

fn create_test_assets() -> (ValidatedAsset, ValidatedAsset) {
    let asset_0 = ValidatedAsset::try_from_asset(Asset::Token {
        ledger_canister_id: principal("rdmx6-jaaaa-aaaaa-aaadq-cai"),
        symbol: "ICP".to_string(),
        ledger_fee_decimals: NatValue::from_u64(10_000),
    })
    .unwrap();
    let asset_1 = ValidatedAsset::try_from_asset(Asset::Token {
        ledger_canister_id: principal("mxzaz-hqaaa-aaaar-qaada-cai"),
        symbol: "SNS".to_string(),
        ledger_fee_decimals: NatValue::from_u64(10_000),
    })
    .unwrap();
    (asset_0, asset_1)
}

fn transaction(timestamp_ns: u64, operation: Operation, index: usize, is_final: bool) -> StableTransaction {
    StableTransaction {
        timestamp_ns,
        canister_id: principal("2vxsx-fae"),
        result: Ok(TransactionWitness::NonLedger("test".to_string())),
        human_readable: "test".to_string(),
        operation: TreasuryManagerOperation { operation, step: Step { index, is_final } },
    }
}

fn initialized_adaptor() -> KongSwapAdaptor {
    let mut adaptor = create_test_adaptor();
    let (asset_0, asset_1) = create_test_assets();
    adaptor.initialize(asset_0, asset_1, test_account(), test_account(), 1_000_000_000);
    adaptor
}

fn is_final(adaptor: &KongSwapAdaptor, i: usize) -> bool {
    adaptor.get_audit_trail()[i].operation.step.is_final
}

#[test]
fn test_finalize_transaction() {
    let mut adaptor = initialized_adaptor();
    assert_eq!(adaptor.get_audit_trail().len(), 0);

    let context = OperationContext::new(Operation::Deposit);
    adaptor.push_audit_trail_transaction(transaction(1_000_000_000, Operation::Deposit, 0, false));

    assert_eq!(adaptor.get_audit_trail().len(), 1);
    assert!(!is_final(&adaptor, 0));

    adaptor.finalize_audit_trail_transaction(context);

    assert_eq!(adaptor.get_audit_trail().len(), 1);
    assert!(is_final(&adaptor, 0));
}

#[test]
fn test_finalize_transaction_multiple_operations() {
    let mut adaptor = initialized_adaptor();
    assert_eq!(adaptor.get_audit_trail().len(), 0);

    adaptor.push_audit_trail_transaction(transaction(1_000_000_000, Operation::Deposit, 0, false));
    adaptor.push_audit_trail_transaction(transaction(2_000_000_000, Operation::Withdraw, 0, false));
    adaptor.push_audit_trail_transaction(transaction(3_000_000_000, Operation::Deposit, 1, false));

    assert_eq!(adaptor.get_audit_trail().len(), 3);
    assert!(!is_final(&adaptor, 0));
    assert!(!is_final(&adaptor, 1));
    assert!(!is_final(&adaptor, 2));

    adaptor.finalize_audit_trail_transaction(OperationContext::new(Operation::Deposit));

    assert_eq!(adaptor.get_audit_trail().len(), 3);
    assert!(!is_final(&adaptor, 0));
    assert!(!is_final(&adaptor, 1));
    assert!(is_final(&adaptor, 2));

    adaptor.finalize_audit_trail_transaction(OperationContext::new(Operation::Withdraw));

    assert_eq!(adaptor.get_audit_trail().len(), 3);
    assert!(!is_final(&adaptor, 0));
    assert!(is_final(&adaptor, 1));
    assert!(is_final(&adaptor, 2));
}

#[test]
fn test_finalize_transaction_no_matching_operation() {
    let mut adaptor = initialized_adaptor();
    assert_eq!(adaptor.get_audit_trail().len(), 0);

    adaptor.push_audit_trail_transaction(transaction(1_000_000_000, Operation::Deposit, 0, false));

    let found =
        adaptor.finalize_audit_trail_transaction(OperationContext::new(Operation::Withdraw));
    assert!(!found);

    assert_eq!(adaptor.get_audit_trail().len(), 1);
    assert!(!is_final(&adaptor, 0));
}

#[test]
fn test_finalize_transaction_already_final() {
    let mut adaptor = initialized_adaptor();
    assert_eq!(adaptor.get_audit_trail().len(), 0);

    adaptor.push_audit_trail_transaction(transaction(1_000_000_000, Operation::Deposit, 42, true));

    adaptor.finalize_audit_trail_transaction(OperationContext::new(Operation::Deposit));

    assert_eq!(adaptor.get_audit_trail().len(), 1);
    assert!(is_final(&adaptor, 0));
}

#[test]
fn test_finalize_transaction_empty_audit_trail() {
    let mut adaptor = initialized_adaptor();
    assert_eq!(adaptor.get_audit_trail().len(), 0);

    let found = adaptor.finalize_audit_trail_transaction(OperationContext::new(Operation::Deposit));
    assert!(!found);

    assert_eq!(adaptor.get_audit_trail().len(), 0);
}

#[test]
fn lock_is_held_by_an_open_deposit_until_it_expires() {
    let mut adaptor = initialized_adaptor();
    assert!(adaptor.check_state_lock(5).is_ok());
    adaptor.push_audit_trail_transaction(transaction(1_000_000_000, Operation::Deposit, 0, false));
    // 45 minutes after the step was recorded, the lock is still held.
    let expiry = 1_000_000_000 + 2_700_000_000_000u64;
    assert_eq!(adaptor.get_remaining_lock_duration_ns(expiry), Some(0));
    assert_eq!(
        adaptor.get_remaining_lock_duration_ns(1_000_000_000),
        Some(2_700_000_000_000)
    );
    let errs = adaptor.check_state_lock(1_000_000_000).unwrap_err();
    assert_eq!(errs.len(), 1);
    assert_eq!(
        errs[0].message,
        "Canister state is locked. Please try again in 2700 seconds."
    );
    // Just after that, the lock has expired.
    assert_eq!(adaptor.get_remaining_lock_duration_ns(expiry + 1), None);
    assert!(adaptor.check_state_lock(expiry + 1).is_ok());
}

#[test]
fn finalizing_the_deposit_releases_the_lock() {
    let mut adaptor = initialized_adaptor();
    adaptor.push_audit_trail_transaction(transaction(1_000_000_000, Operation::Deposit, 0, false));
    adaptor.push_audit_trail_transaction(transaction(1_000_000_001, Operation::Balances, 0, false));
    assert!(adaptor.check_state_lock(1_000_000_002).is_err());
    adaptor.finalize_audit_trail_transaction(OperationContext::new(Operation::Deposit));
    assert!(adaptor.check_state_lock(1_000_000_002).is_ok());
}

#[test]
fn balance_refreshes_do_not_take_the_lock() {
    let mut adaptor = initialized_adaptor();
    adaptor.push_audit_trail_transaction(transaction(1_000_000_000, Operation::Balances, 0, false));
    adaptor.push_audit_trail_transaction(transaction(1_000_000_000, Operation::IssueReward, 0, false));
    assert_eq!(adaptor.get_remaining_lock_duration_ns(1_000_000_000), None);
}

#[test]
fn setting_a_transaction_past_the_end_changes_nothing() {
    let mut adaptor = initialized_adaptor();
    adaptor.push_audit_trail_transaction(transaction(1, Operation::Deposit, 0, false));
    assert!(!adaptor.set_audit_trail_transaction_result(1, transaction(2, Operation::Withdraw, 0, true)));
    assert_eq!(adaptor.get_audit_trail()[0].timestamp_ns, 1);
    assert!(adaptor.set_audit_trail_transaction_result(0, transaction(2, Operation::Withdraw, 0, true)));
    assert_eq!(adaptor.get_audit_trail()[0].timestamp_ns, 2);
    assert_eq!(adaptor.get_audit_trail()[0].operation.operation, Operation::Withdraw);
}

#[test]
fn push_returns_the_index_of_the_new_transaction() {
    let mut adaptor = initialized_adaptor();
    assert_eq!(adaptor.push_audit_trail_transaction(transaction(1, Operation::Deposit, 0, false)), Some(0));
    assert_eq!(adaptor.push_audit_trail_transaction(transaction(2, Operation::Deposit, 1, false)), Some(1));
}

#[test]
fn operation_context_numbers_the_steps() {
    let mut context = OperationContext::new(Operation::Withdraw);
    let first = context.next_operation();
    let second = context.next_operation();
    assert_eq!(first.operation, Operation::Withdraw);
    assert_eq!(first.step, Step { index: 0, is_final: false });
    assert_eq!(second.step, Step { index: 1, is_final: false });
}
