//! Dispatch size of the path tiling stage.

use crate::config::{BumpAllocators, IndirectCount};
use crate::math::{ceil_div, div_ceil};
use vstd::prelude::*;

verus! {

/// Segments that one workgroup handles.
pub const WG_SIZE: u32 = 256;

/// Counts the workgroups that cover all counted segments.
pub fn path_tiling_setup_main(bump: &BumpAllocators, indirect: &mut IndirectCount)
    ensures
        *final(indirect) == (IndirectCount {
            count_x: ceil_div(bump.seg_counts as int, WG_SIZE as int) as u32,
            count_y: 1,
            count_z: 1,
            ..*old(indirect)
        }),
        (final(indirect).count_x - 1) * WG_SIZE < bump.seg_counts <= final(indirect).count_x * WG_SIZE,
{
    let segments: u32 = bump.seg_counts;
    indirect.count_x = div_ceil(segments, WG_SIZE);
    indirect.count_y = 1;
    indirect.count_z = 1;
}

/// Runs the setup stage on the first entry of `indirect`; `_n_wg` is the number of
/// workgroups that the GPU would use.
pub fn path_tiling_setup(_n_wg: u32, bump: &BumpAllocators, indirect: &mut Vec<IndirectCount>)
    requires
        old(indirect)@.len() > 0,
    ensures
        final(indirect)@ == old(indirect)@.update(
            0,
            IndirectCount {
                count_x: ceil_div(bump.seg_counts as int, WG_SIZE as int) as u32,
                count_y: 1,
                count_z: 1,
                ..old(indirect)@[0]
            },
        ),
        bump.seg_counts <= 256 * final(indirect)@[0].count_x < bump.seg_counts + 256,
        final(indirect)@[0].count_y == 1 && final(indirect)@[0].count_z == 1,
{
    let mut first: IndirectCount = indirect[0];
    path_tiling_setup_main(bump, &mut first);
    indirect.set(0, first);
}

} // verus!
