//! Account addresses as plain 32-byte values.
use vstd::prelude::*;

verus! {

/// Width in bytes of an account address.
pub const ADDRESS_BYTES: usize = 32;

/// A 32-byte account address (a public key or a program-derived address).
#[derive(Clone, Copy, Debug, PartialEq, Eq, Hash)]
pub struct Address(pub [u8; 32]);

impl View for Address {
    type V = Seq<u8>;

    open spec fn view(&self) -> Seq<u8> {
        self.0@
    }
}

impl Address {
    /// Builds an address from its bytes.
    pub fn new(bytes: [u8; 32]) -> (r: Address)
        ensures
            r@ == bytes@,
    {
        Address(bytes)
    }

    /// The address's bytes.
    pub fn to_bytes(&self) -> (r: [u8; 32])
        ensures
            r@ == self@,
    {
        self.0
    }

    /// The address's bytes as a vector, as used for derivation seeds.
    pub fn to_vec(&self) -> (r: Vec<u8>)
        ensures
            r@ == self@,
    {
        let mut out: Vec<u8> = Vec::new();
        let mut i: usize = 0;
        while i < ADDRESS_BYTES
            invariant
                i <= ADDRESS_BYTES,
                self@.len() == ADDRESS_BYTES,
                out@ == self@.subrange(0, i as int),
            decreases ADDRESS_BYTES - i,
        {
            out.push(self.0[i]);
            i = i + 1;
            assert(out@ =~= self@.subrange(0, i as int));
        }
        assert(out@ =~= self@);
        out
    }

    /// Whether two addresses hold the same bytes.
    pub fn same_as(&self, other: &Address) -> (r: bool)
        ensures
            r == (self@ == other@),
    {
        let mut i: usize = 0;
        while i < ADDRESS_BYTES
            invariant
                i <= ADDRESS_BYTES,
                self@.len() == ADDRESS_BYTES,
                other@.len() == ADDRESS_BYTES,
                forall|k: int| 0 <= k < i ==> self@[k] == other@[k],
            decreases ADDRESS_BYTES - i,
        {
            if self.0[i] != other.0[i] {
                return false;
            }
            i = i + 1;
        }
        assert(self@ =~= other@);
        true
    }
}

} // verus!
