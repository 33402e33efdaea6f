//! Public-key identities: fixed-size, compared byte for byte, otherwise opaque.
use vstd::prelude::*;

verus! {

/// Length of an identity in bytes.
pub const IDENTITY_LEN: usize = 32;

/// A verified signer identity, as handed over by the signature layer.
#[derive(Clone, Copy, Debug)]
pub struct Identity {
    pub bytes: [u8; 32],
}

impl Identity {
    pub fn new(bytes: [u8; 32]) -> (r: Identity)
        ensures
            r.bytes == bytes,
    {
        Identity { bytes }
    }

    /// Byte-for-byte comparison.
    pub fn same(&self, other: &Identity) -> (r: bool)
        ensures
            r == (*self == *other),
    {
        let mut i: usize = 0;
        while i < IDENTITY_LEN
            invariant
                i <= 32,
                forall|j: int| 0 <= j < i ==> self.bytes@[j] == other.bytes@[j],
            decreases 32 - i,
        {
            if self.bytes[i] != other.bytes[i] {
                return false;
            }
            i = i + 1;
        }
        proof {
            assert(self.bytes =~= other.bytes);
        }
        true
    }
}

impl PartialEq for Identity {
    fn eq(&self, other: &Identity) -> (r: bool) {
        self.same(other)
    }
}

impl vstd::std_specs::cmp::PartialEqSpecImpl for Identity {
    open spec fn obeys_eq_spec() -> bool {
        true
    }

    open spec fn eq_spec(&self, other: &Identity) -> bool {
        *self == *other
    }
}

impl Eq for Identity {
}

/// Compares an optional identity with a present one.
pub fn option_is(o: &Option<Identity>, who: &Identity) -> (r: bool)
    ensures
        r == (*o == Some(*who)),
{
    match o {
        Some(k) => k.same(who),
        None => false,
    }
}

} // verus!
