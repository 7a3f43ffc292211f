//! Decisions of the coloring stage. The color ramp itself is an external
//! collaborator working on doubles; what the engine owns is the choice of
//! ramp position: an escape value below `MAX_ITER` is normalized by dividing
//! by `MAX_ITER`, anything else (the "inside the set" sentinel included) maps
//! to position zero, the fixed color.

use vstd::prelude::*;
use crate::double::div_bits;
use crate::double::gt_bits;
use crate::double::of_u32_bits;
use crate::double::ddiv;
use crate::double::dgt;
use crate::double::du32;
use crate::MAX_ITER;

verus! {

/// The ramp position of an escape value: `value / MAX_ITER` when `value`
/// compares strictly below the double `MAX_ITER`, the position `0.0`
/// otherwise.
pub open spec fn ramp_position_spec(value: u64) -> u64 {
    if gt_bits(of_u32_bits(MAX_ITER), value) {
        div_bits(value, of_u32_bits(MAX_ITER))
    } else {
        of_u32_bits(0)
    }
}

/// Chooses where on the color ramp an escape value lands, exactly as
/// [`ramp_position_spec`] names it.
pub fn ramp_position(value: u64) -> (r: u64)
    ensures
        r == ramp_position_spec(value),
{
    let budget = du32(MAX_ITER);
    if dgt(budget, value) {
        ddiv(value, budget)
    } else {
        du32(0)
    }
}

} // verus!
