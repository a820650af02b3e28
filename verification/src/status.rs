use vstd::prelude::*;

verus! {

/// The kind of a transaction.
#[derive(Clone, Copy, Debug, PartialEq, Eq, Structural)]
pub enum TransactionType {
    Declare,
    Deploy,
    DeployAccount,
    Invoke,
    L1Handler,
}

/// How the execution of a transaction ended.
#[derive(Clone, Debug)]
pub enum ExecutionResult {
    Succeeded,
    Reverted { reason: String },
}

impl ExecutionResult {
    /// Both succeeded, or both were reverted for the same reason.
    pub open spec fn same_outcome(&self, other: &Self) -> bool {
        match (self, other) {
            (ExecutionResult::Succeeded, ExecutionResult::Succeeded) => true,
            (
                ExecutionResult::Reverted { reason: reason1 },
                ExecutionResult::Reverted { reason: reason2 },
            ) => reason1@ == reason2@,
            _ => false,
        }
    }
}

impl PartialEq for ExecutionResult {
    fn eq(&self, other: &Self) -> (r: bool)
        ensures
            r == match (self, other) {
                (ExecutionResult::Succeeded, ExecutionResult::Succeeded) => true,
                (
                    ExecutionResult::Reverted { reason: reason1 },
                    ExecutionResult::Reverted { reason: reason2 },
                ) => reason1@ == reason2@,
                _ => false,
            },
    {
        match (self, other) {
            (ExecutionResult::Succeeded, ExecutionResult::Succeeded) => true,
            (
                ExecutionResult::Reverted { reason: reason1 },
                ExecutionResult::Reverted { reason: reason2 },
            ) => *reason1 == *reason2,
            _ => false,
        }
    }
}

impl vstd::std_specs::cmp::PartialEqSpecImpl for ExecutionResult {
    open spec fn obeys_eq_spec() -> bool {
        true
    }

    open spec fn eq_spec(&self, other: &Self) -> bool {
        self.same_outcome(other)
    }
}

impl Eq for ExecutionResult {}

/// How final a transaction is.
#[derive(Clone, Copy, Debug, PartialEq, Eq, Structural)]
pub enum TransactionFinalityStatus {
    AcceptedOnL2,
    AcceptedOnL1,
}

/// The number of a block.
#[derive(Clone, Copy, Debug, PartialEq, Eq, Structural)]
pub struct BlockNumber(pub u64);

/// An amount of fee.
#[derive(Clone, Copy, Debug, PartialEq, Eq, Structural)]
pub struct Fee(pub u128);

/// The fee that a transaction was charged.
#[derive(Clone, Copy, Debug, PartialEq, Eq, Structural)]
pub struct FeeAmount {
    pub amount: Fee,
}

/// A fee together with the unit it is paid in.
#[derive(Clone, Copy, Debug, PartialEq, Eq, Structural)]
pub enum FeeInUnits {
    WEI(FeeAmount),
    FRI(FeeAmount),
}

} // verus!
