use vstd::prelude::*;
use vstd::std_specs::cmp::PartialEqSpec;

verus! {

/// Byte-wise equality of two byte slices.
pub fn bytes_eq(a: &[u8], b: &[u8]) -> (r: bool)
    ensures
        r == (a@ == b@),
{
    if a.len() != b.len() {
        return false;
    }
    let mut i: usize = 0;
    while i < a.len()
        invariant
            a@.len() == b@.len(),
            0 <= i <= a@.len(),
            forall|j: int| 0 <= j < i ==> a@[j] == b@[j],
        decreases a@.len() - i,
    {
        if a[i] != b[i] {
            return false;
        }
        i = i + 1;
    }
    assert(a@ =~= b@);
    true
}

/// A field element, stored as its 32 big-endian bytes.
#[derive(Clone, Copy, Debug)]
pub struct Felt(pub [u8; 32]);

impl View for Felt {
    type V = Seq<u8>;

    open spec fn view(&self) -> Seq<u8> {
        self.0@
    }
}

impl PartialEq for Felt {
    fn eq(&self, other: &Self) -> (r: bool)
        ensures
            r == (self.0@ == other.0@),
    {
        bytes_eq(self.0.as_slice(), other.0.as_slice())
    }
}

impl vstd::std_specs::cmp::PartialEqSpecImpl for Felt {
    open spec fn obeys_eq_spec() -> bool {
        true
    }

    open spec fn eq_spec(&self, other: &Self) -> bool {
        self@ == other@
    }
}

impl Eq for Felt {}


/// A contract address: the field element that names a contract.
#[derive(Clone, Copy, Debug)]
pub struct ContractAddress(pub Felt);

impl View for ContractAddress {
    type V = Seq<u8>;

    open spec fn view(&self) -> Seq<u8> {
        self.0@
    }
}

impl PartialEq for ContractAddress {
    fn eq(&self, other: &Self) -> (r: bool)
        ensures
            r == (self.0.0@ == other.0.0@),
    {
        self.0 == other.0
    }
}

impl vstd::std_specs::cmp::PartialEqSpecImpl for ContractAddress {
    open spec fn obeys_eq_spec() -> bool {
        true
    }

    open spec fn eq_spec(&self, other: &Self) -> bool {
        self@ == other@
    }
}

impl Eq for ContractAddress {}

/// An Ethereum (L1) address: its 20 bytes.
#[derive(Clone, Copy, Debug)]
pub struct EthAddress(pub [u8; 20]);

impl View for EthAddress {
    type V = Seq<u8>;

    open spec fn view(&self) -> Seq<u8> {
        self.0@
    }
}

impl PartialEq for EthAddress {
    fn eq(&self, other: &Self) -> (r: bool)
        ensures
            r == (self.0@ == other.0@),
    {
        bytes_eq(self.0.as_slice(), other.0.as_slice())
    }
}

impl vstd::std_specs::cmp::PartialEqSpecImpl for EthAddress {
    open spec fn obeys_eq_spec() -> bool {
        true
    }

    open spec fn eq_spec(&self, other: &Self) -> bool {
        self@ == other@
    }
}

impl Eq for EthAddress {}

/// The views of the items of a sequence, in order.
pub open spec fn views_of<T: View>(s: Seq<T>) -> Seq<T::V> {
    s.map_values(|x: T| x@)
}

/// Where two items compare equal exactly when their views are equal, two
/// vectors of them compare equal exactly when they hold items with the same
/// views in the same order.
pub proof fn lemma_vec_eq_spec_by_views<T: View + PartialEq>(a: Vec<T>, b: Vec<T>)
    requires
        forall|x: T, y: T| #[trigger] x.eq_spec(&y) <==> x@ == y@,
    ensures
        a.eq_spec(&b) <==> views_of(a@) == views_of(b@),
{
    assert(views_of(a@).len() == a@.len());
    assert(views_of(b@).len() == b@.len());
    if a.eq_spec(&b) {
        assert forall|i: int| 0 <= i < a@.len() implies views_of(a@)[i] == views_of(b@)[i] by {
            assert(a[i].eq_spec(&b[i]));
        }
        assert(views_of(a@) =~= views_of(b@));
    }
    if views_of(a@) == views_of(b@) {
        assert forall|i: int| 0 <= i < a.len() implies a[i].eq_spec(&b[i]) by {
            assert(views_of(a@)[i] == views_of(b@)[i]);
            assert(views_of(a@)[i] == a@[i]@);
            assert(views_of(b@)[i] == b@[i]@);
        }
    }
}

/// Two sequences have the same views exactly when they are equally long and
/// their items at each position have the same view.
pub proof fn lemma_views_of_eq<T: View>(a: Seq<T>, b: Seq<T>)
    ensures
        views_of(a) == views_of(b) <==> (a.len() == b.len() && forall|i: int|
            0 <= i < a.len() ==> #[trigger] a[i]@ == #[trigger] b[i]@),
{
    if views_of(a) == views_of(b) {
        assert(views_of(a).len() == a.len());
        assert forall|i: int| 0 <= i < a.len() implies #[trigger] a[i]@ == #[trigger] b[i]@ by {
            assert(views_of(a)[i] == views_of(b)[i]);
        }
    }
    if a.len() == b.len() && forall|i: int| 0 <= i < a.len() ==> #[trigger] a[i]@ == #[trigger] b[i]@ {
        assert(views_of(a) =~= views_of(b));
    }
}

/// Field elements, contract addresses and L1 addresses are seen as their bytes.
pub proof fn lemma_address_views(f: Felt, c: ContractAddress, e: EthAddress)
    ensures
        f@ == f.0@,
        c@ == c.0.0@,
        e@ == e.0@,
{
}

} // verus!
