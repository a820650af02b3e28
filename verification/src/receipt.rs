use vstd::prelude::*;

use crate::event::{Event, MessageToL1};
use crate::felt::{lemma_vec_eq_spec_by_views, views_of, ContractAddress, Felt};
use crate::resources::ExecutionResources;
use crate::status::{
    BlockNumber, ExecutionResult, FeeInUnits, TransactionFinalityStatus, TransactionType,
};

verus! {

/// The hash of a transaction.
pub type TransactionHash = Felt;

/// The hash of a block.
pub type BlockHash = Felt;

/// The block of a receipt; both parts are absent while the block is pending.
#[derive(Clone, Copy, Debug)]
pub struct MaybePendingProperties {
    pub block_hash: Option<BlockHash>,
    pub block_number: Option<BlockNumber>,
}

/// The bytes of a field element that may be absent.
pub open spec fn opt_felt_view(f: Option<Felt>) -> Option<Seq<u8>> {
    match f {
        Some(x) => Some(x@),
        None => None,
    }
}

impl View for MaybePendingProperties {
    type V = (Option<Seq<u8>>, Option<BlockNumber>);

    open spec fn view(&self) -> Self::V {
        (opt_felt_view(self.block_hash), self.block_number)
    }
}

impl PartialEq for MaybePendingProperties {
    fn eq(&self, other: &Self) -> (r: bool)
        ensures
            r == (opt_felt_view(self.block_hash) == opt_felt_view(other.block_hash)
                && self.block_number == other.block_number),
    {
        let same_number = match (self.block_number, other.block_number) {
            (None, None) => true,
            (Some(a), Some(b)) => a == b,
            _ => false,
        };
        self.block_hash == other.block_hash && same_number
    }
}

impl vstd::std_specs::cmp::PartialEqSpecImpl for MaybePendingProperties {
    open spec fn obeys_eq_spec() -> bool {
        true
    }

    open spec fn eq_spec(&self, other: &Self) -> bool {
        self@ == other@
    }
}

impl Eq for MaybePendingProperties {}

/// The receipt of a transaction.
#[derive(Clone, Debug)]
pub struct CommonTransactionReceipt {
    pub tx_type: TransactionType,
    pub transaction_hash: TransactionHash,
    pub actual_fee: FeeInUnits,
    pub messages_sent: Vec<MessageToL1>,
    pub events: Vec<Event>,
    pub execution_status: ExecutionResult,
    pub finality_status: TransactionFinalityStatus,
    pub maybe_pending_properties: MaybePendingProperties,
    pub execution_resources: ExecutionResources,
}

impl CommonTransactionReceipt {
    /// Everything but the finality status is the same.
    pub open spec fn same_receipt(&self, other: &Self) -> bool {
        &&& self.transaction_hash@ == other.transaction_hash@
        &&& self.tx_type == other.tx_type
        &&& self.maybe_pending_properties@ == other.maybe_pending_properties@
        &&& views_of(self.events@) == views_of(other.events@)
        &&& views_of(self.messages_sent@) == views_of(other.messages_sent@)
        &&& self.actual_fee == other.actual_fee
        &&& self.execution_resources == other.execution_resources
        &&& self.execution_status.same_outcome(&other.execution_status)
    }
}

impl PartialEq for CommonTransactionReceipt {
    /// Two receipts are equal when all they record but their finality status is.
    fn eq(&self, other: &Self) -> (r: bool)
        ensures
            r == (self.transaction_hash@ == other.transaction_hash@
            && self.tx_type == other.tx_type
            && opt_felt_view(self.maybe_pending_properties.block_hash) == opt_felt_view(other.maybe_pending_properties.block_hash)
            && self.maybe_pending_properties.block_number == other.maybe_pending_properties.block_number
            && views_of(self.events@) == views_of(other.events@)
            && views_of(self.messages_sent@) == views_of(other.messages_sent@)
            && self.actual_fee == other.actual_fee
            && self.execution_resources == other.execution_resources
            && match (self.execution_status, other.execution_status) {
                (ExecutionResult::Succeeded, ExecutionResult::Succeeded) => true,
                (
                    ExecutionResult::Reverted { reason: x },
                    ExecutionResult::Reverted { reason: y },
                ) => x@ == y@,
                _ => false,
            }),
    {
        let identical_execution_result = match (&self.execution_status, &other.execution_status) {
            (ExecutionResult::Succeeded, ExecutionResult::Succeeded) => true,
            (
                ExecutionResult::Reverted { reason: reason1 },
                ExecutionResult::Reverted { reason: reason2 },
            ) => *reason1 == *reason2,
            _ => false,
        };
        proof {
            lemma_vec_eq_spec_by_views(self.events, other.events);
            lemma_vec_eq_spec_by_views(self.messages_sent, other.messages_sent);
        }
        self.transaction_hash == other.transaction_hash && self.tx_type == other.tx_type
            && self.maybe_pending_properties == other.maybe_pending_properties && self.events
            == other.events && self.messages_sent == other.messages_sent && self.actual_fee
            == other.actual_fee && self.execution_resources == other.execution_resources
            && identical_execution_result
    }
}

impl vstd::std_specs::cmp::PartialEqSpecImpl for CommonTransactionReceipt {
    open spec fn obeys_eq_spec() -> bool {
        true
    }

    open spec fn eq_spec(&self, other: &Self) -> bool {
        self.same_receipt(other)
    }
}

impl Eq for CommonTransactionReceipt {}

/// The receipt of a transaction that deployed a contract.
#[derive(Clone, Debug)]
pub struct DeployTransactionReceipt {
    pub common: CommonTransactionReceipt,
    pub contract_address: ContractAddress,
}

impl DeployTransactionReceipt {
    /// The same receipt of the deployment of the same address.
    pub open spec fn same_receipt(&self, other: &Self) -> bool {
        &&& self.common.same_receipt(&other.common)
        &&& self.contract_address@ == other.contract_address@
    }
}

impl PartialEq for DeployTransactionReceipt {
    fn eq(&self, other: &Self) -> (r: bool)
        ensures
            r == (self.common.same_receipt(&other.common) && self.contract_address@
                == other.contract_address@),
    {
        self.common == other.common && self.contract_address == other.contract_address
    }
}

impl vstd::std_specs::cmp::PartialEqSpecImpl for DeployTransactionReceipt {
    open spec fn obeys_eq_spec() -> bool {
        true
    }

    open spec fn eq_spec(&self, other: &Self) -> bool {
        self.same_receipt(other)
    }
}

impl Eq for DeployTransactionReceipt {}

/// A receipt: of a deployment, or of any other transaction.
#[derive(Clone, Debug)]
pub enum TransactionReceipt {
    Deploy(DeployTransactionReceipt),
    Common(CommonTransactionReceipt),
}

impl TransactionReceipt {
    /// Receipts of the same kind whose contents are the same.
    pub open spec fn same_receipt(&self, other: &Self) -> bool {
        match (self, other) {
            (TransactionReceipt::Deploy(a), TransactionReceipt::Deploy(b)) => a.same_receipt(b),
            (TransactionReceipt::Common(a), TransactionReceipt::Common(b)) => a.same_receipt(b),
            _ => false,
        }
    }
}

impl PartialEq for TransactionReceipt {
    fn eq(&self, other: &Self) -> (r: bool)
        ensures
            r == match (self, other) {
                (TransactionReceipt::Deploy(a), TransactionReceipt::Deploy(b)) => a.same_receipt(
                    b,
                ),
                (TransactionReceipt::Common(a), TransactionReceipt::Common(b)) => a.same_receipt(
                    b,
                ),
                _ => false,
            },
    {
        match (self, other) {
            (TransactionReceipt::Deploy(a), TransactionReceipt::Deploy(b)) => a == b,
            (TransactionReceipt::Common(a), TransactionReceipt::Common(b)) => a == b,
            _ => false,
        }
    }
}

impl vstd::std_specs::cmp::PartialEqSpecImpl for TransactionReceipt {
    open spec fn obeys_eq_spec() -> bool {
        true
    }

    open spec fn eq_spec(&self, other: &Self) -> bool {
        self.same_receipt(other)
    }
}

impl Eq for TransactionReceipt {}

/// Two receipts are equal exactly when they have the same transaction hash,
/// kind, block hash and number, events, messages, fee, execution resources
/// (all of them) and execution outcome (both succeeded, or both reverted for
/// the same reason); their finality statuses play no part.
pub proof fn lemma_common_receipt_eq_fields(a: CommonTransactionReceipt, b: CommonTransactionReceipt)
    ensures
        a.same_receipt(&b) <==> (a.transaction_hash@ == b.transaction_hash@
            && a.tx_type == b.tx_type
            && opt_felt_view(a.maybe_pending_properties.block_hash) == opt_felt_view(b.maybe_pending_properties.block_hash)
            && a.maybe_pending_properties.block_number == b.maybe_pending_properties.block_number
            && views_of(a.events@) == views_of(b.events@)
            && views_of(a.messages_sent@) == views_of(b.messages_sent@)
            && a.actual_fee == b.actual_fee
            && a.execution_resources == b.execution_resources
            && match (a.execution_status, b.execution_status) {
                (ExecutionResult::Succeeded, ExecutionResult::Succeeded) => true,
                (
                    ExecutionResult::Reverted { reason: x },
                    ExecutionResult::Reverted { reason: y },
                ) => x@ == y@,
                _ => false,
            }),
{
}

/// Two deployment receipts are equal exactly when their common parts are
/// equal as receipts and they deployed the same address.
pub proof fn lemma_deploy_receipt_eq_fields(a: DeployTransactionReceipt, b: DeployTransactionReceipt)
    ensures
        a.same_receipt(&b) <==> (a.common.same_receipt(&b.common) && a.contract_address@
            == b.contract_address@),
        a.same_receipt(&b) ==> a.common.execution_resources == b.common.execution_resources
            && a.common.actual_fee == b.common.actual_fee && a.common.transaction_hash@
            == b.common.transaction_hash@,
{
}

/// Receipts of either kind are equal exactly when they are of the same kind and
/// equal as receipts of that kind.
pub proof fn lemma_transaction_receipt_eq_cases(
    a: CommonTransactionReceipt,
    b: CommonTransactionReceipt,
    c: DeployTransactionReceipt,
    d: DeployTransactionReceipt,
)
    ensures
        TransactionReceipt::Common(a).same_receipt(&TransactionReceipt::Common(b))
            <==> a.same_receipt(&b),
        TransactionReceipt::Deploy(c).same_receipt(&TransactionReceipt::Deploy(d))
            <==> c.same_receipt(&d),
        !TransactionReceipt::Common(a).same_receipt(&TransactionReceipt::Deploy(c)),
        !TransactionReceipt::Deploy(c).same_receipt(&TransactionReceipt::Common(a)),
        !a.execution_status.same_outcome(&b.execution_status) ==> !TransactionReceipt::Common(
            a,
        ).same_receipt(&TransactionReceipt::Common(b)),
{
}

/// Two block records are the same exactly when both lack a block hash or both
/// have one with the same bytes, and their block numbers are the same.
pub proof fn lemma_pending_properties_view_eq(a: MaybePendingProperties, b: MaybePendingProperties)
    ensures
        a@ == b@ <==> (match (a.block_hash, b.block_hash) {
            (None, None) => true,
            (Some(x), Some(y)) => x.0@ == y.0@,
            _ => false,
        } && a.block_number == b.block_number),
        opt_felt_view(a.block_hash) == opt_felt_view(b.block_hash) <==> match (
            a.block_hash,
            b.block_hash,
        ) {
            (None, None) => true,
            (Some(x), Some(y)) => x.0@ == y.0@,
            _ => false,
        },
{
}

/// The outcomes of executions compare as an equivalence relation.
pub proof fn lemma_outcome_eq_is_equivalence(a: ExecutionResult, b: ExecutionResult, c: ExecutionResult)
    ensures
        a.same_outcome(&a),
        a.same_outcome(&b) == b.same_outcome(&a),
        a.same_outcome(&b) && b.same_outcome(&c) ==> a.same_outcome(&c),
{
}

/// Equality of receipts is an equivalence relation: every receipt equals
/// itself, equality holds both ways or neither, and it carries over a receipt
/// equal to two others.
pub proof fn lemma_common_receipt_eq_is_equivalence(
    a: CommonTransactionReceipt,
    b: CommonTransactionReceipt,
    c: CommonTransactionReceipt,
)
    ensures
        a.same_receipt(&a),
        a.same_receipt(&b) == b.same_receipt(&a),
        a.same_receipt(&b) && b.same_receipt(&c) ==> a.same_receipt(&c),
{
    lemma_outcome_eq_is_equivalence(a.execution_status, b.execution_status, c.execution_status);
}

/// A receipt equals itself with any other finality status: the finality status
/// plays no part in the equality of receipts.
pub proof fn lemma_common_receipt_eq_ignores_finality(
    a: CommonTransactionReceipt,
    status: TransactionFinalityStatus,
)
    ensures
        a.same_receipt(&CommonTransactionReceipt { finality_status: status, ..a }),
{
    lemma_outcome_eq_is_equivalence(a.execution_status, a.execution_status, a.execution_status);
}

/// Equality of deployment receipts is an equivalence relation.
pub proof fn lemma_deploy_receipt_eq_is_equivalence(
    a: DeployTransactionReceipt,
    b: DeployTransactionReceipt,
    c: DeployTransactionReceipt,
)
    ensures
        a.same_receipt(&a),
        a.same_receipt(&b) == b.same_receipt(&a),
        a.same_receipt(&b) && b.same_receipt(&c) ==> a.same_receipt(&c),
{
    lemma_common_receipt_eq_is_equivalence(a.common, b.common, c.common);
}

/// Equality of receipts of either kind is an equivalence relation; a receipt of
/// a deployment never equals a receipt of another kind.
pub proof fn lemma_transaction_receipt_eq_is_equivalence(
    a: TransactionReceipt,
    b: TransactionReceipt,
    c: TransactionReceipt,
)
    ensures
        a.same_receipt(&a),
        a.same_receipt(&b) == b.same_receipt(&a),
        a.same_receipt(&b) && b.same_receipt(&c) ==> a.same_receipt(&c),
        (a is Deploy) != (b is Deploy) ==> !a.same_receipt(&b),
{
    match (a, b, c) {
        (
            TransactionReceipt::Deploy(x),
            TransactionReceipt::Deploy(y),
            TransactionReceipt::Deploy(z),
        ) => {
            lemma_deploy_receipt_eq_is_equivalence(x, y, z);
        },
        (
            TransactionReceipt::Common(x),
            TransactionReceipt::Common(y),
            TransactionReceipt::Common(z),
        ) => {
            lemma_common_receipt_eq_is_equivalence(x, y, z);
        },
        (TransactionReceipt::Deploy(x), TransactionReceipt::Deploy(y), _) => {
            lemma_deploy_receipt_eq_is_equivalence(x, y, x);
        },
        (TransactionReceipt::Common(x), TransactionReceipt::Common(y), _) => {
            lemma_common_receipt_eq_is_equivalence(x, y, x);
        },
        (TransactionReceipt::Deploy(x), _, _) => {
            lemma_deploy_receipt_eq_is_equivalence(x, x, x);
            match b {
                TransactionReceipt::Common(y) => lemma_common_receipt_eq_is_equivalence(y, y, y),
                _ => {},
            }
        },
        (TransactionReceipt::Common(x), _, _) => {
            lemma_common_receipt_eq_is_equivalence(x, x, x);
            match b {
                TransactionReceipt::Deploy(y) => lemma_deploy_receipt_eq_is_equivalence(y, y, y),
                _ => {},
            }
        },
    }
}

} // verus!
