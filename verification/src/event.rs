use vstd::prelude::*;

use crate::felt::{lemma_vec_eq_spec_by_views, views_of, ContractAddress, EthAddress, Felt};

verus! {

/// An event that a contract emitted while a transaction ran.
#[derive(Clone, Debug)]
pub struct Event {
    pub from_address: ContractAddress,
    pub keys: Vec<Felt>,
    pub data: Vec<Felt>,
}

impl View for Event {
    type V = (Seq<u8>, Seq<Seq<u8>>, Seq<Seq<u8>>);

    open spec fn view(&self) -> Self::V {
        (self.from_address@, views_of(self.keys@), views_of(self.data@))
    }
}

impl PartialEq for Event {
    fn eq(&self, other: &Self) -> (r: bool)
        ensures
            r == (self.from_address.0.0@ == other.from_address.0.0@ && views_of(self.keys@)
                == views_of(other.keys@) && views_of(self.data@) == views_of(other.data@)),
    {
        proof {
            lemma_vec_eq_spec_by_views(self.keys, other.keys);
            lemma_vec_eq_spec_by_views(self.data, other.data);
        }
        self.from_address == other.from_address && self.keys == other.keys && self.data
            == other.data
    }
}

impl vstd::std_specs::cmp::PartialEqSpecImpl for Event {
    open spec fn obeys_eq_spec() -> bool {
        true
    }

    open spec fn eq_spec(&self, other: &Self) -> bool {
        self@ == other@
    }
}

impl Eq for Event {}

/// A message that a transaction sent from L2 to an L1 address.
#[derive(Clone, Debug)]
pub struct MessageToL1 {
    pub from_address: ContractAddress,
    pub to_address: EthAddress,
    pub payload: Vec<Felt>,
}

impl View for MessageToL1 {
    type V = (Seq<u8>, Seq<u8>, Seq<Seq<u8>>);

    open spec fn view(&self) -> Self::V {
        (self.from_address@, self.to_address@, views_of(self.payload@))
    }
}

impl PartialEq for MessageToL1 {
    fn eq(&self, other: &Self) -> (r: bool)
        ensures
            r == (self.from_address.0.0@ == other.from_address.0.0@ && self.to_address.0@
                == other.to_address.0@ && views_of(self.payload@) == views_of(other.payload@)),
    {
        proof {
            lemma_vec_eq_spec_by_views(self.payload, other.payload);
        }
        self.from_address == other.from_address && self.to_address == other.to_address
            && self.payload == other.payload
    }
}

impl vstd::std_specs::cmp::PartialEqSpecImpl for MessageToL1 {
    open spec fn obeys_eq_spec() -> bool {
        true
    }

    open spec fn eq_spec(&self, other: &Self) -> bool {
        self@ == other@
    }
}

impl Eq for MessageToL1 {}

/// Two events are the same exactly when they come from the same address and
/// carry the same keys and the same data, in order.
pub proof fn lemma_event_view_eq(a: Event, b: Event)
    ensures
        a@ == b@ <==> (a.from_address.0.0@ == b.from_address.0.0@ && views_of(a.keys@)
            == views_of(b.keys@) && views_of(a.data@) == views_of(b.data@)),
{
}

/// Two messages are the same exactly when they go from the same address to the
/// same L1 address with the same payload, in order.
pub proof fn lemma_message_view_eq(a: MessageToL1, b: MessageToL1)
    ensures
        a@ == b@ <==> (a.from_address.0.0@ == b.from_address.0.0@ && a.to_address.0@
            == b.to_address.0@ && views_of(a.payload@) == views_of(b.payload@)),
{
}

} // verus!
