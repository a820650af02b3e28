use vstd::prelude::*;

verus! {

/// Name under which the number of Cairo steps is recorded.
pub const N_STEPS: &'static str = "n_steps";
/// Name of the range-check builtin.
pub const RANGE_CHECK_BUILTIN_NAME: &'static str = "range_check_builtin";
/// Name of the Pedersen hash builtin.
pub const HASH_BUILTIN_NAME: &'static str = "pedersen_builtin";
/// Name of the Poseidon builtin.
pub const POSEIDON_BUILTIN_NAME: &'static str = "poseidon_builtin";
/// Name of the elliptic-curve operation builtin.
pub const EC_OP_BUILTIN_NAME: &'static str = "ec_op_builtin";
/// Name of the ECDSA signature builtin.
pub const SIGNATURE_BUILTIN_NAME: &'static str = "ecdsa_builtin";
/// Name of the bitwise builtin.
pub const BITWISE_BUILTIN_NAME: &'static str = "bitwise_builtin";
/// Name of the Keccak builtin.
pub const KECCAK_BUILTIN_NAME: &'static str = "keccak_builtin";

/// What a resource counter holds under `name`: the count of its first entry
/// with that name, or `None` when no entry has it.
pub open spec fn counter_get(entries: Seq<(String, usize)>, name: Seq<char>) -> Option<usize>
    decreases entries.len(),
{
    if entries.len() == 0 {
        None
    } else if entries[0].0@ == name {
        Some(entries[0].1)
    } else {
        counter_get(entries.drop_first(), name)
    }
}

/// No two entries of a counter share a name (as in a map from names to counts).
pub open spec fn names_unique(entries: Seq<(String, usize)>) -> bool {
    forall|i: int, j: int|
        0 <= i < entries.len() && 0 <= j < entries.len() && i != j ==> #[trigger] entries[i].0@
            != #[trigger] entries[j].0@
}

/// The count that a counter holds under `name`.
pub fn counter_lookup(entries: &Vec<(String, usize)>, name: &str) -> (r: Option<usize>)
    ensures
        r == counter_get(entries@, name@),
{
    let key = name.to_owned();
    let mut i: usize = 0;
    assert(entries@.skip(0) =~= entries@);
    while i < entries.len()
        invariant
            0 <= i <= entries@.len(),
            key@ == name@,
            counter_get(entries@, name@) == counter_get(entries@.skip(i as int), name@),
        decreases entries@.len() - i,
    {
        let entry = &entries[i];
        assert(entries@.skip(i as int)[0] == entries@[i as int]);
        assert(entries@.skip(i as int).drop_first() =~= entries@.skip(i + 1));
        if entry.0 == key {
            return Some(entry.1);
        }
        i = i + 1;
    }
    None
}

/// The resources that one call recorded while it ran.
#[derive(Clone, Debug)]
pub struct CallResources {
    pub n_steps: usize,
    pub n_memory_holes: usize,
    pub builtin_instance_counter: Vec<(String, usize)>,
}

/// The resources that the execution of a transaction recorded: those of its
/// validation, execution and fee-transfer calls (each may be absent) and the
/// resources that the transaction is charged for.
#[derive(Clone, Debug)]
pub struct TransactionResources {
    pub validate_call: Option<CallResources>,
    pub execute_call: Option<CallResources>,
    pub fee_transfer_call: Option<CallResources>,
    pub actual_resources: Vec<(String, usize)>,
}

/// The execution resources that a receipt reports.
#[derive(Clone, Debug, PartialEq, Eq, Structural)]
pub struct ExecutionResources {
    pub steps: usize,
    pub memory_holes: Option<usize>,
    pub range_check_builtin_applications: Option<usize>,
    pub pedersen_builtin_applications: Option<usize>,
    pub poseidon_builtin_applications: Option<usize>,
    pub ec_op_builtin_applications: Option<usize>,
    pub ecdsa_builtin_applications: Option<usize>,
    pub bitwise_builtin_applications: Option<usize>,
    pub keccak_builtin_applications: Option<usize>,
}

/// A number of memory holes as a receipt reports it: absent when there are none.
pub open spec fn reported_holes(n: int) -> Option<usize> {
    if n == 0 {
        None
    } else {
        Some(n as usize)
    }
}

/// The memory holes of a call that may be absent (none when it is absent).
pub open spec fn call_holes(call: Option<CallResources>) -> int {
    match call {
        Some(c) => c.n_memory_holes as int,
        None => 0,
    }
}

/// The memory holes of the validation, execution and fee-transfer calls together.
pub open spec fn total_memory_holes(info: TransactionResources) -> int {
    call_holes(info.execute_call) + call_holes(info.validate_call) + call_holes(
        info.fee_transfer_call,
    )
}

impl ExecutionResources {
    /// The resources reported for a single call.
    pub open spec fn of_call(call: CallResources) -> ExecutionResources {
        let c = call.builtin_instance_counter@;
        ExecutionResources {
            steps: call.n_steps,
            memory_holes: reported_holes(call.n_memory_holes as int),
            range_check_builtin_applications: counter_get(c, RANGE_CHECK_BUILTIN_NAME@),
            pedersen_builtin_applications: counter_get(c, HASH_BUILTIN_NAME@),
            poseidon_builtin_applications: counter_get(c, POSEIDON_BUILTIN_NAME@),
            ec_op_builtin_applications: counter_get(c, EC_OP_BUILTIN_NAME@),
            ecdsa_builtin_applications: counter_get(c, SIGNATURE_BUILTIN_NAME@),
            bitwise_builtin_applications: counter_get(c, BITWISE_BUILTIN_NAME@),
            keccak_builtin_applications: counter_get(c, KECCAK_BUILTIN_NAME@),
        }
    }

    /// The resources reported for a whole transaction: the steps and builtins
    /// that it is charged for (no steps recorded count as zero), and the memory
    /// holes of its three calls together.
    pub open spec fn of_transaction(info: TransactionResources) -> ExecutionResources {
        let a = info.actual_resources@;
        ExecutionResources {
            steps: match counter_get(a, N_STEPS@) {
                Some(s) => s,
                None => 0,
            },
            memory_holes: reported_holes(total_memory_holes(info)),
            range_check_builtin_applications: counter_get(a, RANGE_CHECK_BUILTIN_NAME@),
            pedersen_builtin_applications: counter_get(a, HASH_BUILTIN_NAME@),
            poseidon_builtin_applications: counter_get(a, POSEIDON_BUILTIN_NAME@),
            ec_op_builtin_applications: counter_get(a, EC_OP_BUILTIN_NAME@),
            ecdsa_builtin_applications: counter_get(a, SIGNATURE_BUILTIN_NAME@),
            bitwise_builtin_applications: counter_get(a, BITWISE_BUILTIN_NAME@),
            keccak_builtin_applications: counter_get(a, KECCAK_BUILTIN_NAME@),
        }
    }

    /// The resources reported for a single call.
    pub fn from_call_resources(call: &CallResources) -> (r: ExecutionResources)
        ensures
            r == Self::of_call(*call),
            r.steps == call.n_steps,
            call.n_memory_holes == 0 ==> r.memory_holes is None,
            call.n_memory_holes != 0 ==> r.memory_holes == Some(call.n_memory_holes),
            r.range_check_builtin_applications == counter_get(call.builtin_instance_counter@, "range_check_builtin"@),
            r.pedersen_builtin_applications == counter_get(call.builtin_instance_counter@, "pedersen_builtin"@),
            r.poseidon_builtin_applications == counter_get(call.builtin_instance_counter@, "poseidon_builtin"@),
            r.ec_op_builtin_applications == counter_get(call.builtin_instance_counter@, "ec_op_builtin"@),
            r.ecdsa_builtin_applications == counter_get(call.builtin_instance_counter@, "ecdsa_builtin"@),
            r.bitwise_builtin_applications == counter_get(call.builtin_instance_counter@, "bitwise_builtin"@),
            r.keccak_builtin_applications == counter_get(call.builtin_instance_counter@, "keccak_builtin"@),
    {
        ExecutionResources {
            steps: call.n_steps,
            memory_holes: if call.n_memory_holes == 0 {
                None
            } else {
                Some(call.n_memory_holes)
            },
            range_check_builtin_applications: Self::get_resource_from_call_info(
                call,
                RANGE_CHECK_BUILTIN_NAME,
            ),
            pedersen_builtin_applications: Self::get_resource_from_call_info(
                call,
                HASH_BUILTIN_NAME,
            ),
            poseidon_builtin_applications: Self::get_resource_from_call_info(
                call,
                POSEIDON_BUILTIN_NAME,
            ),
            ec_op_builtin_applications: Self::get_resource_from_call_info(
                call,
                EC_OP_BUILTIN_NAME,
            ),
            ecdsa_builtin_applications: Self::get_resource_from_call_info(
                call,
                SIGNATURE_BUILTIN_NAME,
            ),
            bitwise_builtin_applications: Self::get_resource_from_call_info(
                call,
                BITWISE_BUILTIN_NAME,
            ),
            keccak_builtin_applications: Self::get_resource_from_call_info(
                call,
                KECCAK_BUILTIN_NAME,
            ),
        }
    }

    /// The resources reported for a whole transaction. The memory holes of its
    /// three calls must fit in a `usize` together.
    pub fn from_transaction_resources(info: &TransactionResources) -> (r: ExecutionResources)
        requires
            total_memory_holes(*info) <= usize::MAX,
        ensures
            r == Self::of_transaction(*info),
            counter_get(info.actual_resources@, "n_steps"@) is None ==> r.steps == 0,
            counter_get(info.actual_resources@, "n_steps"@) is Some ==> Some(r.steps) == counter_get(info.actual_resources@, "n_steps"@),
            (match info.validate_call {
                Some(c) => c.n_memory_holes as int,
                None => 0int,
            } + match info.execute_call {
                Some(c) => c.n_memory_holes as int,
                None => 0int,
            } + match info.fee_transfer_call {
                Some(c) => c.n_memory_holes as int,
                None => 0int,
            }) == 0 ==> r.memory_holes is None,
            (match info.validate_call {
                Some(c) => c.n_memory_holes as int,
                None => 0int,
            } + match info.execute_call {
                Some(c) => c.n_memory_holes as int,
                None => 0int,
            } + match info.fee_transfer_call {
                Some(c) => c.n_memory_holes as int,
                None => 0int,
            }) != 0 ==> r.memory_holes == Some((match info.validate_call {
                Some(c) => c.n_memory_holes as int,
                None => 0int,
            } + match info.execute_call {
                Some(c) => c.n_memory_holes as int,
                None => 0int,
            } + match info.fee_transfer_call {
                Some(c) => c.n_memory_holes as int,
                None => 0int,
            }) as usize),
            r.range_check_builtin_applications == counter_get(info.actual_resources@, "range_check_builtin"@),
            r.pedersen_builtin_applications == counter_get(info.actual_resources@, "pedersen_builtin"@),
            r.poseidon_builtin_applications == counter_get(info.actual_resources@, "poseidon_builtin"@),
            r.ec_op_builtin_applications == counter_get(info.actual_resources@, "ec_op_builtin"@),
            r.ecdsa_builtin_applications == counter_get(info.actual_resources@, "ecdsa_builtin"@),
            r.bitwise_builtin_applications == counter_get(info.actual_resources@, "bitwise_builtin"@),
            r.keccak_builtin_applications == counter_get(info.actual_resources@, "keccak_builtin"@),
    {
        let total_memory_holes = Self::get_memory_holes_from_call_info(&info.execute_call)
            + Self::get_memory_holes_from_call_info(&info.validate_call)
            + Self::get_memory_holes_from_call_info(&info.fee_transfer_call);
        ExecutionResources {
            steps: match Self::get_resource_from_execution_info(info, N_STEPS) {
                Some(s) => s,
                None => 0,
            },
            memory_holes: if total_memory_holes == 0 {
                None
            } else {
                Some(total_memory_holes)
            },
            range_check_builtin_applications: Self::get_resource_from_execution_info(
                info,
                RANGE_CHECK_BUILTIN_NAME,
            ),
            pedersen_builtin_applications: Self::get_resource_from_execution_info(
                info,
                HASH_BUILTIN_NAME,
            ),
            poseidon_builtin_applications: Self::get_resource_from_execution_info(
                info,
                POSEIDON_BUILTIN_NAME,
            ),
            ec_op_builtin_applications: Self::get_resource_from_execution_info(
                info,
                EC_OP_BUILTIN_NAME,
            ),
            ecdsa_builtin_applications: Self::get_resource_from_execution_info(
                info,
                SIGNATURE_BUILTIN_NAME,
            ),
            bitwise_builtin_applications: Self::get_resource_from_execution_info(
                info,
                BITWISE_BUILTIN_NAME,
            ),
            keccak_builtin_applications: Self::get_resource_from_execution_info(
                info,
                KECCAK_BUILTIN_NAME,
            ),
        }
    }

    /// The resources reported for a whole transaction, or `None` exactly when
    /// the memory holes of its three calls do not fit in a `usize` together.
    pub fn try_from_transaction_resources(info: &TransactionResources) -> (r: Option<
        ExecutionResources,
    >)
        ensures
            r is None <==> total_memory_holes(*info) > usize::MAX,
            r is None <==> (match info.validate_call {
                Some(c) => c.n_memory_holes as int,
                None => 0int,
            } + match info.execute_call {
                Some(c) => c.n_memory_holes as int,
                None => 0int,
            } + match info.fee_transfer_call {
                Some(c) => c.n_memory_holes as int,
                None => 0int,
            }) > usize::MAX,
            r is Some ==> r->0 == Self::of_transaction(*info),
    {
        let a = Self::get_memory_holes_from_call_info(&info.execute_call);
        let b = Self::get_memory_holes_from_call_info(&info.validate_call);
        let c = Self::get_memory_holes_from_call_info(&info.fee_transfer_call);
        match a.checked_add(b) {
            None => None,
            Some(ab) => match ab.checked_add(c) {
                None => None,
                Some(_) => Some(Self::from_transaction_resources(info)),
            },
        }
    }

    /// The memory holes of a call that may be absent.
    pub fn get_memory_holes_from_call_info(call: &Option<CallResources>) -> (r: usize)
        ensures
            r == call_holes(*call),
            call.is_none() ==> r == 0,
            call.is_some() ==> r == call.unwrap().n_memory_holes,
    {
        match call {
            Some(c) => c.n_memory_holes,
            None => 0,
        }
    }

    /// The count that a transaction is charged for under `resource_name`.
    pub fn get_resource_from_execution_info(
        info: &TransactionResources,
        resource_name: &str,
    ) -> (r: Option<usize>)
        ensures
            r == counter_get(info.actual_resources@, resource_name@),
    {
        counter_lookup(&info.actual_resources, resource_name)
    }

    /// The count of builtin `resource_name` that a call recorded.
    pub fn get_resource_from_call_info(call: &CallResources, resource_name: &str) -> (r: Option<
        usize,
    >)
        ensures
            r == counter_get(call.builtin_instance_counter@, resource_name@),
    {
        counter_lookup(&call.builtin_instance_counter, resource_name)
    }
}

impl<'a> From<&'a CallResources> for ExecutionResources {
    fn from(call: &'a CallResources) -> (r: Self) {
        Self::from_call_resources(call)
    }
}

impl<'a> vstd::std_specs::convert::FromSpecImpl<&'a CallResources> for ExecutionResources {
    open spec fn obeys_from_spec() -> bool {
        true
    }

    open spec fn from_spec(call: &'a CallResources) -> Self {
        Self::of_call(*call)
    }
}

/// The resources reported for a call: its own steps, its memory holes (left
/// out when there are none), and for each builtin the count that the call's
/// counter holds under that builtin's own name.
pub proof fn lemma_call_report_fields(call: CallResources)
    ensures
            ExecutionResources::of_call(call).steps == call.n_steps,
            call.n_memory_holes == 0 ==> ExecutionResources::of_call(call).memory_holes is None,
            call.n_memory_holes != 0 ==> ExecutionResources::of_call(call).memory_holes == Some(call.n_memory_holes),
            ExecutionResources::of_call(call).range_check_builtin_applications == counter_get(call.builtin_instance_counter@, "range_check_builtin"@),
            ExecutionResources::of_call(call).pedersen_builtin_applications == counter_get(call.builtin_instance_counter@, "pedersen_builtin"@),
            ExecutionResources::of_call(call).poseidon_builtin_applications == counter_get(call.builtin_instance_counter@, "poseidon_builtin"@),
            ExecutionResources::of_call(call).ec_op_builtin_applications == counter_get(call.builtin_instance_counter@, "ec_op_builtin"@),
            ExecutionResources::of_call(call).ecdsa_builtin_applications == counter_get(call.builtin_instance_counter@, "ecdsa_builtin"@),
            ExecutionResources::of_call(call).bitwise_builtin_applications == counter_get(call.builtin_instance_counter@, "bitwise_builtin"@),
            ExecutionResources::of_call(call).keccak_builtin_applications == counter_get(call.builtin_instance_counter@, "keccak_builtin"@),
{
    reveal_strlit("range_check_builtin");
}

/// The resources reported for a transaction: the steps it is charged for (zero
/// when none are recorded), the memory holes of its validation, execution and
/// fee-transfer calls together (left out when there are none), and for each
/// builtin the count charged under that builtin's own name.
pub proof fn lemma_transaction_report_fields(info: TransactionResources)
    requires
        (match info.validate_call {
                Some(c) => c.n_memory_holes as int,
                None => 0int,
            } + match info.execute_call {
                Some(c) => c.n_memory_holes as int,
                None => 0int,
            } + match info.fee_transfer_call {
                Some(c) => c.n_memory_holes as int,
                None => 0int,
            }) <= usize::MAX,
    ensures
        total_memory_holes(info) == (match info.validate_call {
                Some(c) => c.n_memory_holes as int,
                None => 0int,
            } + match info.execute_call {
                Some(c) => c.n_memory_holes as int,
                None => 0int,
            } + match info.fee_transfer_call {
                Some(c) => c.n_memory_holes as int,
                None => 0int,
            }),
            counter_get(info.actual_resources@, "n_steps"@) is None ==> ExecutionResources::of_transaction(info).steps == 0,
            counter_get(info.actual_resources@, "n_steps"@) is Some ==> Some(ExecutionResources::of_transaction(info).steps) == counter_get(info.actual_resources@, "n_steps"@),
            (match info.validate_call {
                Some(c) => c.n_memory_holes as int,
                None => 0int,
            } + match info.execute_call {
                Some(c) => c.n_memory_holes as int,
                None => 0int,
            } + match info.fee_transfer_call {
                Some(c) => c.n_memory_holes as int,
                None => 0int,
            }) == 0 ==> ExecutionResources::of_transaction(info).memory_holes is None,
            (match info.validate_call {
                Some(c) => c.n_memory_holes as int,
                None => 0int,
            } + match info.execute_call {
                Some(c) => c.n_memory_holes as int,
                None => 0int,
            } + match info.fee_transfer_call {
                Some(c) => c.n_memory_holes as int,
                None => 0int,
            }) != 0 ==> ExecutionResources::of_transaction(info).memory_holes == Some((match info.validate_call {
                Some(c) => c.n_memory_holes as int,
                None => 0int,
            } + match info.execute_call {
                Some(c) => c.n_memory_holes as int,
                None => 0int,
            } + match info.fee_transfer_call {
                Some(c) => c.n_memory_holes as int,
                None => 0int,
            }) as usize),
            ExecutionResources::of_transaction(info).range_check_builtin_applications == counter_get(info.actual_resources@, "range_check_builtin"@),
            ExecutionResources::of_transaction(info).pedersen_builtin_applications == counter_get(info.actual_resources@, "pedersen_builtin"@),
            ExecutionResources::of_transaction(info).poseidon_builtin_applications == counter_get(info.actual_resources@, "poseidon_builtin"@),
            ExecutionResources::of_transaction(info).ec_op_builtin_applications == counter_get(info.actual_resources@, "ec_op_builtin"@),
            ExecutionResources::of_transaction(info).ecdsa_builtin_applications == counter_get(info.actual_resources@, "ecdsa_builtin"@),
            ExecutionResources::of_transaction(info).bitwise_builtin_applications == counter_get(info.actual_resources@, "bitwise_builtin"@),
            ExecutionResources::of_transaction(info).keccak_builtin_applications == counter_get(info.actual_resources@, "keccak_builtin"@),
{
}

/// A counter holds nothing under a name that no entry has, and where names are
/// unique it holds under each entry's name exactly that entry's count.
pub proof fn lemma_counter_get_is_map_lookup(entries: Seq<(String, usize)>, name: Seq<char>)
    ensures
        counter_get(entries, name) is None <==> forall|i: int|
            0 <= i < entries.len() ==> #[trigger] entries[i].0@ != name,
        names_unique(entries) ==> forall|i: int|
            0 <= i < entries.len() && #[trigger] entries[i].0@ == name ==> counter_get(
                entries,
                name,
            ) == Some(entries[i].1),
    decreases entries.len(),
{
    if entries.len() > 0 {
        let rest = entries.drop_first();
        lemma_counter_get_is_map_lookup(rest, name);
        assert forall|i: int| 0 < i < entries.len() implies #[trigger] entries[i] == rest[i - 1] by {}
        if names_unique(entries) {
            assert forall|i: int, j: int|
                0 <= i < rest.len() && 0 <= j < rest.len() && i != j implies #[trigger] rest[i].0@
                != #[trigger] rest[j].0@ by {
                assert(rest[i] == entries[i + 1]);
                assert(rest[j] == entries[j + 1]);
            }
        }
        if counter_get(entries, name) is None {
            assert(entries[0].0@ != name);
        }
        if forall|i: int| 0 <= i < entries.len() ==> #[trigger] entries[i].0@ != name {
            assert(entries[0].0@ != name);
            assert forall|i: int| 0 <= i < rest.len() implies #[trigger] rest[i].0@ != name by {
                assert(rest[i] == entries[i + 1]);
            }
        }
        if counter_get(entries, name) is None {
            assert forall|i: int| 0 <= i < entries.len() implies #[trigger] entries[i].0@ != name by {
                if i > 0 {
                    assert(rest[i - 1] == entries[i]);
                }
            }
        }
    }
}

/// A receipt never reports zero memory holes: it leaves them out instead.
pub proof fn lemma_memory_holes_never_zero(call: CallResources, info: TransactionResources)
    ensures
        ExecutionResources::of_call(call).memory_holes != Some(0usize),
        total_memory_holes(info) <= usize::MAX ==> ExecutionResources::of_transaction(
            info,
        ).memory_holes != Some(0usize),
{
}

/// A transaction whose only call is `call` reports the memory holes of that
/// call, whichever of its three calls it is.
pub proof fn lemma_single_call_memory_holes(
    call: CallResources,
    actual_resources: Vec<(String, usize)>,
)
    ensures
        ExecutionResources::of_transaction(
            TransactionResources {
                validate_call: None,
                execute_call: Some(call),
                fee_transfer_call: None,
                actual_resources,
            },
        ).memory_holes == ExecutionResources::of_call(call).memory_holes,
        ExecutionResources::of_transaction(
            TransactionResources {
                validate_call: Some(call),
                execute_call: None,
                fee_transfer_call: None,
                actual_resources,
            },
        ).memory_holes == ExecutionResources::of_call(call).memory_holes,
        ExecutionResources::of_transaction(
            TransactionResources {
                validate_call: None,
                execute_call: None,
                fee_transfer_call: Some(call),
                actual_resources,
            },
        ).memory_holes == ExecutionResources::of_call(call).memory_holes,
{
}

} // verus!
