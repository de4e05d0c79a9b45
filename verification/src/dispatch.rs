//! Sizing of compute dispatches.
//!
//! The compute stage runs a shader over a grid of workgroups, each covering
//! a `WORKGROUP_SIZE` x `WORKGROUP_SIZE` tile of the target image.  The grid
//! is rounded up so that every pixel of the image is covered even when the
//! extent is not a multiple of the workgroup size; when it is a multiple,
//! the grid divides the extent exactly.

use vstd::prelude::*;

verus! {

/// Side length, in pixels, of one compute workgroup tile.
pub const WORKGROUP_SIZE: u32 = 8;

/// Number of workgroups needed to cover `extent` pixels along one axis:
/// `extent / 8` rounded up.
pub open spec fn group_count(extent: int) -> int {
    (extent + 7) / 8
}

/// Workgroup count along one axis of the target image.
pub fn dispatch_group_count(extent: u32) -> (n: u32)
    ensures
        n == group_count(extent as int),
{
    let wide: u64 = extent as u64;
    ((wide + 7) / 8) as u32
}

/// The full dispatch grid for a 2D target image: one workgroup per
/// 8x8 tile, a single layer in depth.
pub fn dispatch_grid(width: u32, height: u32) -> (grid: (u32, u32, u32))
    ensures
        grid.0 == group_count(width as int),
        grid.1 == group_count(height as int),
        grid.2 == 1u32,
{
    (dispatch_group_count(width), dispatch_group_count(height), 1)
}

/// For extents that are multiples of the workgroup size, the grid is the
/// exact quotient: no remainder, no extra workgroup.
pub proof fn lemma_group_count_exact_when_divisible(extent: int)
    requires
        extent >= 0,
        extent % 8 == 0,
    ensures
        group_count(extent) == extent / 8,
{
}

/// The grid always covers the whole image, and never overshoots by a full
/// workgroup: `extent <= grid * 8 < extent + 8`.
pub proof fn lemma_group_count_covers(extent: int)
    requires
        extent >= 0,
    ensures
        group_count(extent) * 8 >= extent,
        group_count(extent) * 8 < extent + 8,
{
}

} // verus!
