//! Field-visualizer grid addressing shared with the WGSL compute pass.

use vstd::prelude::*;

verus! {

/// External web dependencies.
pub const WEB_DEPENDENCIES: u32 = 0;
/// Render resolution (cells per axis).
pub const RENDER_GRID: usize = 4096;
/// Compute workgroup size (threads per axis).
pub const WORKGROUP_SIZE: u32 = 16;

/// Flat index used by the compute pass: `y * 4096 + x` (row-major).
pub fn cell_index(x: u32, y: u32) -> (r: usize)
    requires
        y as int * RENDER_GRID + x <= usize::MAX,
    ensures
        r == y as int * RENDER_GRID + x,
        x < RENDER_GRID ==> r / RENDER_GRID == y && r % RENDER_GRID == x,
{
    let r = y as usize * RENDER_GRID + x as usize;
    proof {
        if x < RENDER_GRID {
            vstd::arithmetic::div_mod::lemma_fundamental_div_mod_converse(
                r as int,
                RENDER_GRID as int,
                y as int,
                x as int,
            );
        }
    }
    r
}

} // verus!
