use devnet_receipts::resources::{
    counter_lookup, CallResources, ExecutionResources, TransactionResources, BITWISE_BUILTIN_NAME,
    EC_OP_BUILTIN_NAME, HASH_BUILTIN_NAME, KECCAK_BUILTIN_NAME, N_STEPS, POSEIDON_BUILTIN_NAME,
    RANGE_CHECK_BUILTIN_NAME, SIGNATURE_BUILTIN_NAME,
};

fn counter(entries: &[(&str, usize)]) -> Vec<(String, usize)> {
    entries.iter().map(|(k, v)| (k.to_string(), *v)).collect()
}

fn call(n_steps: usize, holes: usize, builtins: &[(&str, usize)]) -> CallResources {
    CallResources { n_steps, n_memory_holes: holes, builtin_instance_counter: counter(builtins) }
}

#[test]
fn builtin_names_are_the_cairo_vm_names() {
    assert_eq!(N_STEPS, "n_steps");
    assert_eq!(RANGE_CHECK_BUILTIN_NAME, "range_check_builtin");
    assert_eq!(HASH_BUILTIN_NAME, "pedersen_builtin");
    assert_eq!(POSEIDON_BUILTIN_NAME, "poseidon_builtin");
    assert_eq!(EC_OP_BUILTIN_NAME, "ec_op_builtin");
    assert_eq!(SIGNATURE_BUILTIN_NAME, "ecdsa_builtin");
    assert_eq!(BITWISE_BUILTIN_NAME, "bitwise_builtin");
    assert_eq!(KECCAK_BUILTIN_NAME, "keccak_builtin");
}

#[test]
fn counter_lookup_finds_entry_or_nothing() {
    let c = counter(&[("a", 1), ("b", 2), ("c", 3)]);
    assert_eq!(counter_lookup(&c, "a"), Some(1));
    assert_eq!(counter_lookup(&c, "b"), Some(2));
    assert_eq!(counter_lookup(&c, "c"), Some(3));
    assert_eq!(counter_lookup(&c, "d"), None);
    assert_eq!(counter_lookup(&Vec::new(), "a"), None);
}

#[test]
fn counter_lookup_takes_first_of_repeated_names() {
    let c = counter(&[("a", 1), ("a", 7)]);
    assert_eq!(counter_lookup(&c, "a"), Some(1));
}

#[test]
fn from_call_reads_every_builtin() {
    let c = call(
        1234,
        5,
        &[
            ("range_check_builtin", 1),
            ("pedersen_builtin", 2),
            ("poseidon_builtin", 3),
            ("ec_op_builtin", 4),
            ("ecdsa_builtin", 5),
            ("bitwise_builtin", 6),
            ("keccak_builtin", 7),
            ("output_builtin", 8),
            ("segment_arena_builtin", 9),
        ],
    );
    let r = ExecutionResources::from_call_resources(&c);
    assert_eq!(
        r,
        ExecutionResources {
            steps: 1234,
            memory_holes: Some(5),
            range_check_builtin_applications: Some(1),
            pedersen_builtin_applications: Some(2),
            poseidon_builtin_applications: Some(3),
            ec_op_builtin_applications: Some(4),
            ecdsa_builtin_applications: Some(5),
            bitwise_builtin_applications: Some(6),
            keccak_builtin_applications: Some(7),
        }
    );
    let via_from: ExecutionResources = (&c).into();
    assert_eq!(via_from, r);
}

#[test]
fn from_call_leaves_out_zero_holes_and_absent_builtins() {
    let c = call(10, 0, &[("bitwise_builtin", 3)]);
    let r = ExecutionResources::from_call_resources(&c);
    assert_eq!(r.steps, 10);
    assert_eq!(r.memory_holes, None);
    assert_eq!(r.bitwise_builtin_applications, Some(3));
    assert_eq!(r.range_check_builtin_applications, None);
    assert_eq!(r.pedersen_builtin_applications, None);
    assert_eq!(r.poseidon_builtin_applications, None);
    assert_eq!(r.ec_op_builtin_applications, None);
    assert_eq!(r.ecdsa_builtin_applications, None);
    assert_eq!(r.keccak_builtin_applications, None);
}

#[test]
fn from_call_keeps_zero_builtin_counts() {
    let c = call(0, 0, &[("keccak_builtin", 0)]);
    let r = ExecutionResources::from_call_resources(&c);
    assert_eq!(r.keccak_builtin_applications, Some(0));
}

#[test]
fn from_transaction_sums_memory_holes_of_its_calls() {
    let info = TransactionResources {
        validate_call: Some(call(1, 2, &[])),
        execute_call: Some(call(1, 3, &[])),
        fee_transfer_call: Some(call(1, 4, &[])),
        actual_resources: counter(&[("n_steps", 500), ("range_check_builtin", 11), ("l1_gas_usage", 7)]),
    };
    let r = ExecutionResources::from_transaction_resources(&info);
    assert_eq!(
        r,
        ExecutionResources {
            steps: 500,
            memory_holes: Some(9),
            range_check_builtin_applications: Some(11),
            pedersen_builtin_applications: None,
            poseidon_builtin_applications: None,
            ec_op_builtin_applications: None,
            ecdsa_builtin_applications: None,
            bitwise_builtin_applications: None,
            keccak_builtin_applications: None,
        }
    );
    assert_eq!(ExecutionResources::try_from_transaction_resources(&info), Some(r));
}

#[test]
fn from_transaction_without_steps_or_holes() {
    let info = TransactionResources {
        validate_call: None,
        execute_call: Some(call(9, 0, &[("pedersen_builtin", 4)])),
        fee_transfer_call: None,
        actual_resources: counter(&[("pedersen_builtin", 4)]),
    };
    let r = ExecutionResources::from_transaction_resources(&info);
    assert_eq!(r.steps, 0);
    assert_eq!(r.memory_holes, None);
    assert_eq!(r.pedersen_builtin_applications, Some(4));
}

#[test]
fn from_transaction_reads_builtins_from_charged_resources_not_calls() {
    let info = TransactionResources {
        validate_call: None,
        execute_call: Some(call(9, 0, &[("poseidon_builtin", 4)])),
        fee_transfer_call: None,
        actual_resources: counter(&[]),
    };
    let r = ExecutionResources::from_transaction_resources(&info);
    assert_eq!(r.poseidon_builtin_applications, None);
}

#[test]
fn try_from_transaction_refuses_overflowing_holes() {
    let info = TransactionResources {
        validate_call: Some(call(0, usize::MAX, &[])),
        execute_call: Some(call(0, 1, &[])),
        fee_transfer_call: None,
        actual_resources: Vec::new(),
    };
    assert_eq!(ExecutionResources::try_from_transaction_resources(&info), None);
    let info = TransactionResources {
        validate_call: Some(call(0, usize::MAX - 1, &[])),
        execute_call: Some(call(0, 1, &[])),
        fee_transfer_call: None,
        actual_resources: Vec::new(),
    };
    let r = ExecutionResources::try_from_transaction_resources(&info).unwrap();
    assert_eq!(r.memory_holes, Some(usize::MAX));
}

#[test]
fn single_call_transaction_reports_that_calls_holes() {
    let c = call(3, 6, &[]);
    let single = ExecutionResources::from_call_resources(&c);
    for slot in 0..3 {
        let info = TransactionResources {
            validate_call: if slot == 0 { Some(c.clone()) } else { None },
            execute_call: if slot == 1 { Some(c.clone()) } else { None },
            fee_transfer_call: if slot == 2 { Some(c.clone()) } else { None },
            actual_resources: Vec::new(),
        };
        let r = ExecutionResources::from_transaction_resources(&info);
        assert_eq!(r.memory_holes, single.memory_holes);
    }
}

#[test]
fn memory_holes_are_never_reported_as_zero() {
    let r = ExecutionResources::from_call_resources(&call(0, 0, &[]));
    assert_ne!(r.memory_holes, Some(0));
    let info = TransactionResources {
        validate_call: Some(call(0, 0, &[])),
        execute_call: None,
        fee_transfer_call: Some(call(0, 0, &[])),
        actual_resources: Vec::new(),
    };
    assert_ne!(ExecutionResources::from_transaction_resources(&info).memory_holes, Some(0));
}

#[test]
fn memory_holes_helper_counts_absent_call_as_zero() {
    assert_eq!(ExecutionResources::get_memory_holes_from_call_info(&None), 0);
    assert_eq!(ExecutionResources::get_memory_holes_from_call_info(&Some(call(0, 8, &[]))), 8);
}
