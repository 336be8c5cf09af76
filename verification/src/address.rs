//! 32-byte account identifiers.

use vstd::prelude::*;

verus! {

/// The identifier of an account or of a program: 32 opaque bytes.
#[derive(Clone, Copy, Debug, Eq)]
pub struct Address {
    /// The 32 bytes.
    pub bytes: [u8; 32],
}

impl View for Address {
    type V = Seq<u8>;

    open spec fn view(&self) -> Seq<u8> {
        self.bytes@
    }
}

impl Address {
    /// Wraps 32 bytes as an address.
    pub fn new_from_array(bytes: [u8; 32]) -> (a: Address)
        ensures
            a.bytes == bytes,
            a@ == bytes@,
    {
        Address { bytes }
    }

    /// The bytes of the address.
    pub fn to_bytes(&self) -> (bytes: [u8; 32])
        ensures
            bytes == self.bytes,
    {
        self.bytes
    }

    /// Whether the address consists of exactly `bytes`.
    pub fn has_bytes(&self, bytes: &[u8; 32]) -> (r: bool)
        ensures
            r == (self.bytes == *bytes),
    {
        let mut i: usize = 0;
        while i < 32
            invariant
                i <= 32,
                forall|j: int| 0 <= j < i ==> self.bytes[j] == bytes[j],
            decreases 32 - i,
        {
            if self.bytes[i] != bytes[i] {
                return false;
            }
            i = i + 1;
        }
        assert(self.bytes =~= *bytes);
        true
    }

    /// Two addresses are the same exactly when their bytes agree.
    pub proof fn lemma_eq_by_bytes(a: Address, b: Address)
        ensures
            (a == b) <==> (a@ == b@),
    {
        if a@ == b@ {
            assert(a.bytes =~= b.bytes);
        }
    }
}

impl PartialEq for Address {
    fn eq(&self, other: &Address) -> (r: bool) {
        self.has_bytes(&other.bytes)
    }
}

impl vstd::std_specs::cmp::PartialEqSpecImpl for Address {
    open spec fn obeys_eq_spec() -> bool {
        true
    }

    open spec fn eq_spec(&self, other: &Address) -> bool {
        *self == *other
    }
}

} // verus!
