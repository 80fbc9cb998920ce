use vstd::prelude::*;

verus! {

/// The type byte of an address that routes to a worker of the local node.
pub const LOCAL: u8 = 0;

/// A routing address: a type byte that tells routers which transport
/// resolves it, and the address proper as bytes.
#[derive(Clone, Debug, Hash)]
pub struct Address {
    pub tt: u8,
    pub inner: Vec<u8>,
}

impl View for Address {
    type V = (u8, Seq<u8>);

    open spec fn view(&self) -> (u8, Seq<u8>) {
        (self.tt, self.inner@)
    }
}

/// Whether a byte is a lower-case hexadecimal digit.
pub open spec fn is_hex_digit(b: u8) -> bool {
    (0x30 <= b <= 0x39) || (0x61 <= b <= 0x66)
}

/// Whether an address is one that the node's random allocator hands out: a
/// local address of 32 lower-case hexadecimal digits.
pub open spec fn is_random_local(a: (u8, Seq<u8>)) -> bool {
    &&& a.0 == LOCAL
    &&& a.1.len() == 32
    &&& forall|i: int| 0 <= i < 32 ==> is_hex_digit(#[trigger] a.1[i])
}

impl Address {
    /// An address of the given type with the given bytes.
    pub fn new(tt: u8, inner: Vec<u8>) -> (r: Address)
        ensures
            r@ == (tt, inner@),
    {
        Address { tt, inner }
    }

    /// Whether two addresses are the same: same type byte and same bytes.
    pub fn same(&self, other: &Address) -> (r: bool)
        ensures
            r == (self@ == other@),
    {
        if self.tt != other.tt || self.inner.len() != other.inner.len() {
            return false;
        }
        let n = self.inner.len();
        let mut i: usize = 0;
        while i < n
            invariant
                n == self.inner@.len(),
                n == other.inner@.len(),
                0 <= i <= n,
                forall|j: int| 0 <= j < i ==> self.inner@[j] == other.inner@[j],
            decreases n - i,
        {
            if self.inner[i] != other.inner[i] {
                return false;
            }
            i = i + 1;
        }
        assert(self.inner@ =~= other.inner@);
        true
    }
}

impl PartialEq for Address {
    fn eq(&self, other: &Address) -> (r: bool) {
        self.same(other)
    }
}

impl vstd::std_specs::cmp::PartialEqSpecImpl for Address {
    open spec fn obeys_eq_spec() -> bool {
        true
    }

    open spec fn eq_spec(&self, other: &Address) -> bool {
        self@ == other@
    }
}

impl Eq for Address {
}

/// Relies on ockam_core::Address::random: it keeps the type byte it is given
/// and draws the rest as hex::encode of 16 random bytes, that is 32
/// lower-case hexadecimal digits. Which digits is chance.
#[verifier::external_body]
pub(crate) fn random_address(tt: u8) -> (r: Address)
    ensures
        r.tt == tt,
        r.inner@.len() == 32,
        forall|i: int| 0 <= i < 32 ==> is_hex_digit(#[trigger] r.inner@[i]),
{
    let a = ockam_core::Address::random(tt);
    Address { tt: a.tt, inner: a.to_vec() }
}

} // verus!
