use vstd::prelude::*;

verus! {

/// A flag as the bit that stands for it in a register: 1 when set, 0 when clear.
pub open spec fn bit(flag: bool) -> u8 {
    if flag {
        1u8
    } else {
        0u8
    }
}

pub fn bit_of(flag: bool) -> (r: u8)
    ensures
        r == bit(flag),
{
    if flag {
        1
    } else {
        0
    }
}

} // verus!
