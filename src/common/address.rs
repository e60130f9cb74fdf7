use vstd::prelude::*;

verus! {

/// The 20-byte address of an account.
pub struct Address {
    inner: [u8; 20],
}

impl View for Address {
    type V = Seq<u8>;

    closed spec fn view(&self) -> Seq<u8> {
        self.inner@
    }
}

impl Address {
    /// The address with these bytes.
    pub fn new(inner: [u8; 20]) -> (r: Address)
        ensures
            r@ == inner@,
    {
        Address { inner }
    }
}

impl AsRef<[u8]> for Address {
    fn as_ref(&self) -> &[u8] {
        self.inner.as_slice()
    }
}

} // verus!
