use devnet_receipts::event::{Event, MessageToL1};
use devnet_receipts::felt::{bytes_eq, ContractAddress, EthAddress, Felt};
use devnet_receipts::receipt::{
    CommonTransactionReceipt, DeployTransactionReceipt, MaybePendingProperties,
    TransactionReceipt,
};
use devnet_receipts::resources::ExecutionResources;
use devnet_receipts::status::{
    BlockNumber, ExecutionResult, Fee, FeeAmount, FeeInUnits, TransactionFinalityStatus,
    TransactionType,
};

fn felt(n: u8) -> Felt {
    let mut bytes = [0u8; 32];
    bytes[31] = n;
    Felt(bytes)
}

fn resources() -> ExecutionResources {
    ExecutionResources {
        steps: 100,
        memory_holes: None,
        range_check_builtin_applications: Some(2),
        pedersen_builtin_applications: None,
        poseidon_builtin_applications: None,
        ec_op_builtin_applications: None,
        ecdsa_builtin_applications: None,
        bitwise_builtin_applications: None,
        keccak_builtin_applications: None,
    }
}

fn receipt() -> CommonTransactionReceipt {
    CommonTransactionReceipt {
        tx_type: TransactionType::Invoke,
        transaction_hash: felt(7),
        actual_fee: FeeInUnits::WEI(FeeAmount { amount: Fee(1000) }),
        messages_sent: vec![MessageToL1 {
            from_address: ContractAddress(felt(1)),
            to_address: EthAddress([9u8; 20]),
            payload: vec![felt(2), felt(3)],
        }],
        events: vec![Event {
            from_address: ContractAddress(felt(1)),
            keys: vec![felt(4)],
            data: vec![felt(5), felt(6)],
        }],
        execution_status: ExecutionResult::Succeeded,
        finality_status: TransactionFinalityStatus::AcceptedOnL2,
        maybe_pending_properties: MaybePendingProperties {
            block_hash: Some(felt(8)),
            block_number: Some(BlockNumber(12)),
        },
        execution_resources: resources(),
    }
}

#[test]
fn bytes_eq_compares_contents() {
    assert!(bytes_eq(&[1, 2, 3], &[1, 2, 3]));
    assert!(!bytes_eq(&[1, 2, 3], &[1, 2, 4]));
    assert!(!bytes_eq(&[1, 2], &[1, 2, 3]));
    assert!(bytes_eq(&[], &[]));
}

#[test]
fn felts_compare_by_bytes() {
    assert!(felt(1) == felt(1));
    assert!(felt(1) != felt(2));
    let mut high = [0u8; 32];
    high[0] = 1;
    assert!(Felt(high) != felt(1));
}

#[test]
fn receipt_equals_its_clone() {
    let a = receipt();
    assert!(a == a.clone());
}

#[test]
fn receipt_equality_ignores_finality_status() {
    let a = receipt();
    let mut b = receipt();
    b.finality_status = TransactionFinalityStatus::AcceptedOnL1;
    assert!(a == b);
    assert!(b == a);
}

#[test]
fn receipt_equality_is_symmetric_and_transitive() {
    let a = receipt();
    let mut b = receipt();
    b.finality_status = TransactionFinalityStatus::AcceptedOnL1;
    let c = receipt();
    assert!(a == b && b == c && a == c);
    let mut d = receipt();
    d.transaction_hash = felt(99);
    assert!(a != d && d != a);
}

#[test]
fn receipt_equality_compares_every_other_field() {
    let a = receipt();
    let mut b = receipt();
    b.tx_type = TransactionType::Declare;
    assert!(a != b);
    let mut b = receipt();
    b.transaction_hash = felt(70);
    assert!(a != b);
    let mut b = receipt();
    b.actual_fee = FeeInUnits::FRI(FeeAmount { amount: Fee(1000) });
    assert!(a != b);
    let mut b = receipt();
    b.actual_fee = FeeInUnits::WEI(FeeAmount { amount: Fee(1001) });
    assert!(a != b);
    let mut b = receipt();
    b.messages_sent[0].payload.push(felt(0));
    assert!(a != b);
    let mut b = receipt();
    b.messages_sent[0].to_address = EthAddress([8u8; 20]);
    assert!(a != b);
    let mut b = receipt();
    b.events.clear();
    assert!(a != b);
    let mut b = receipt();
    b.events[0].keys[0] = felt(40);
    assert!(a != b);
    let mut b = receipt();
    b.events[0].from_address = ContractAddress(felt(2));
    assert!(a != b);
    let mut b = receipt();
    b.maybe_pending_properties.block_hash = None;
    assert!(a != b);
    let mut b = receipt();
    b.maybe_pending_properties.block_number = Some(BlockNumber(13));
    assert!(a != b);
    let mut b = receipt();
    b.execution_resources.steps = 101;
    assert!(a != b);
    let mut b = receipt();
    b.execution_status = ExecutionResult::Reverted { reason: "out of gas".to_string() };
    assert!(a != b);
}

#[test]
fn reverted_receipts_compare_by_reason() {
    let mut a = receipt();
    a.execution_status = ExecutionResult::Reverted { reason: "x".to_string() };
    let mut b = receipt();
    b.execution_status = ExecutionResult::Reverted { reason: "x".to_string() };
    assert!(a == b);
    b.execution_status = ExecutionResult::Reverted { reason: "y".to_string() };
    assert!(a != b);
}

#[test]
fn pending_properties_compare_both_parts() {
    let pending = MaybePendingProperties { block_hash: None, block_number: None };
    let accepted =
        MaybePendingProperties { block_hash: Some(felt(1)), block_number: Some(BlockNumber(1)) };
    assert!(pending == pending);
    assert!(accepted == accepted);
    assert!(pending != accepted);
    assert!(
        MaybePendingProperties { block_hash: Some(felt(1)), block_number: None }
            != MaybePendingProperties { block_hash: Some(felt(1)), block_number: Some(BlockNumber(0)) }
    );
}

#[test]
fn deploy_receipts_compare_common_part_and_address() {
    let a = DeployTransactionReceipt { common: receipt(), contract_address: ContractAddress(felt(5)) };
    let mut common = receipt();
    common.finality_status = TransactionFinalityStatus::AcceptedOnL1;
    let b = DeployTransactionReceipt { common, contract_address: ContractAddress(felt(5)) };
    assert!(a == b);
    let c = DeployTransactionReceipt { common: receipt(), contract_address: ContractAddress(felt(6)) };
    assert!(a != c);
}

#[test]
fn receipts_of_different_kinds_are_never_equal() {
    let deploy = TransactionReceipt::Deploy(DeployTransactionReceipt {
        common: receipt(),
        contract_address: ContractAddress(felt(5)),
    });
    let common = TransactionReceipt::Common(receipt());
    assert!(deploy != common);
    assert!(common != deploy);
    assert!(deploy == deploy.clone());
    assert!(common == common.clone());
}

#[test]
fn events_and_messages_compare_all_parts() {
    let e = Event { from_address: ContractAddress(felt(1)), keys: vec![felt(1)], data: vec![] };
    let mut f = e.clone();
    assert!(e == f);
    f.data.push(felt(1));
    assert!(e != f);
    let m = MessageToL1 {
        from_address: ContractAddress(felt(1)),
        to_address: EthAddress([0u8; 20]),
        payload: vec![],
    };
    let mut n = m.clone();
    assert!(m == n);
    n.from_address = ContractAddress(felt(3));
    assert!(m != n);
}
