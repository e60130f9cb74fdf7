use vstd::prelude::*;
use crate::common::address::Address;

verus! {

/// The accounts that a contract call runs between.
pub struct Contract {
    pub caller_address: Address,
    caller: Address,
    self_: Address,
}

} // verus!
