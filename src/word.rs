use vstd::prelude::*;

verus! {

/// The machine word, a 256-bit unsigned integer; values are carried through unopened.
#[verifier::external_type_specification]
#[verifier::external_body]
pub struct ExU256(ethnum::U256);

/// The 32 big-endian bytes of a word.
pub uninterp spec fn be_bytes_of(w: ethnum::U256) -> Seq<u8>;

/// Relies on ethnum's `U256::to_be_bytes`: the word as 32 bytes, most significant first.
#[verifier::external_body]
pub(crate) fn word_to_be_bytes(w: ethnum::U256) -> (r: [u8; 32])
    ensures
        r@ == be_bytes_of(w),
{
    w.to_be_bytes()
}

} // verus!
