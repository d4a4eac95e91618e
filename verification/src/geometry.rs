//! Output geometry: the width that preserves the source aspect ratio at a
//! requested output height.

use vstd::prelude::*;

verus! {

/// Width of the scaled frame: the source width scaled by
/// `target_height / orig_height`, rounded down by integer division.
pub open spec fn spec_derived_width(orig_width: nat, orig_height: nat, target_height: nat) -> int
    recommends
        orig_height > 0,
{
    (orig_width * target_height) as int / orig_height as int
}

/// Computes the output width for scaling an `orig_width x orig_height` frame
/// to `target_height` while preserving the aspect ratio. Rounding down is the
/// accepted approximation.
pub fn derived_width(orig_width: u32, orig_height: u32, target_height: u32) -> (w: u64)
    requires
        orig_height > 0,
    ensures
        w == spec_derived_width(orig_width as nat, orig_height as nat, target_height as nat),
{
    let ow: u64 = orig_width as u64;
    let th: u64 = target_height as u64;
    assert(ow * th <= 0xffff_ffffu64 * 0xffff_ffffu64) by (nonlinear_arith)
        requires
            ow <= 0xffff_ffffu64,
            th <= 0xffff_ffffu64,
    ;
    (ow * th) / (orig_height as u64)
}

} // verus!
