use vstd::prelude::*;

verus! {

/// The 32-byte Keccak-256 hash of some data.
pub struct Hash {
    inner: [u8; 32],
}

impl View for Hash {
    type V = Seq<u8>;

    closed spec fn view(&self) -> Seq<u8> {
        self.inner@
    }
}

impl Hash {
    /// The hash with these bytes.
    pub fn new(inner: [u8; 32]) -> (r: Hash)
        ensures
            r@ == inner@,
    {
        Hash { inner }
    }
}

impl AsRef<[u8]> for Hash {
    fn as_ref(&self) -> &[u8] {
        self.inner.as_slice()
    }
}

} // verus!
