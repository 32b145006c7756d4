//! Fixed-size byte wrappers for addresses and hashes.
use vstd::prelude::*;

verus! {

/// Wrapper around `[u8; 20]` representing an address.
#[derive(Clone, Copy, Debug, PartialEq, Eq, Hash)]
pub struct AddressBytes(pub [u8; 20]);

/// Wrapper around `[u8; 32]` representing a hash.
#[derive(Clone, Copy, Debug, PartialEq, Eq, Hash)]
pub struct HashBytes(pub [u8; 32]);

impl View for AddressBytes {
    type V = Seq<u8>;

    open spec fn view(&self) -> Seq<u8> {
        self.0@
    }
}

impl View for HashBytes {
    type V = Seq<u8>;

    open spec fn view(&self) -> Seq<u8> {
        self.0@
    }
}

/// Byte-wise equality of two arrays.
fn same_bytes(a: &[u8], b: &[u8]) -> (r: bool)
    ensures
        r == (a@ == b@),
{
    if a.len() != b.len() {
        return false;
    }
    let mut i: usize = 0;
    while i < a.len()
        invariant
            a@.len() == b@.len(),
            i <= a@.len(),
            forall|j: int| 0 <= j < i ==> a@[j] == b@[j],
        decreases a@.len() - i,
    {
        if a[i] != b[i] {
            return false;
        }
        i = i + 1;
    }
    proof {
        assert(a@ =~= b@);
    }
    true
}

impl AddressBytes {
    /// Whether two addresses hold the same bytes.
    pub fn same(&self, other: &Self) -> (r: bool)
        ensures
            r == (self@ == other@),
    {
        same_bytes(&self.0, &other.0)
    }

    /// Returns the inner byte array.
    pub fn as_bytes(&self) -> (r: &[u8; 20])
        ensures
            *r == self.0,
    {
        &self.0
    }

    /// The all-zero address.
    pub fn zero() -> (r: Self)
        ensures
            r.0@ == Seq::new(20, |i: int| 0u8),
    {
        let r = AddressBytes([0u8; 20]);
        proof {
            assert(r.0@ =~= Seq::new(20, |i: int| 0u8));
        }
        r
    }
}

impl HashBytes {
    /// Whether two hashes hold the same bytes.
    pub fn same(&self, other: &Self) -> (r: bool)
        ensures
            r == (self@ == other@),
    {
        same_bytes(&self.0, &other.0)
    }

    /// Returns the inner byte array.
    pub fn as_bytes(&self) -> (r: &[u8; 32])
        ensures
            *r == self.0,
    {
        &self.0
    }

    /// Whether every byte of the hash is zero.
    pub fn is_zero(&self) -> (r: bool)
        ensures
            r == (forall|i: int| 0 <= i < 32 ==> self.0@[i] == 0u8),
    {
        let mut i: usize = 0;
        while i < 32
            invariant
                i <= 32,
                forall|j: int| 0 <= j < i ==> self.0@[j] == 0u8,
            decreases 32 - i,
        {
            if self.0[i] != 0 {
                return false;
            }
            i = i + 1;
        }
        true
    }
}

} // verus!
