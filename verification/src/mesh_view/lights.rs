//! Integer part of locating a fragment's light cluster: the cluster grid is
//! `x * y * z` clusters (`cluster_dimensions.xyz`), `w` of them in all.

use vstd::prelude::*;

use crate::vector::{UVec2, UVec4};

verus! {

/// The smaller of two unsigned integers.
pub fn unsigned_min(a: u32, b: u32) -> (r: u32)
    ensures
        r == (if a <= b { a } else { b }),
{
    if a <= b {
        a
    } else {
        b
    }
}

/// The z slice, limited to the last slice of the grid: the far plane used for
/// clustering may be closer than the furthest thing drawn.
pub fn clamp_z_slice(z_slice: u32, cluster_dimensions: UVec4) -> (r: u32)
    requires
        cluster_dimensions.z >= 1,
    ensures
        r == (if z_slice < cluster_dimensions.z { z_slice } else { (cluster_dimensions.z - 1) as u32 }),
        r < cluster_dimensions.z,
{
    unsigned_min(z_slice, cluster_dimensions.z - 1)
}

/// The linear index of cluster `(x, y, z)`: y varies slowest, then x, z fastest.
pub open spec fn linear_cluster_index(xy: UVec2, z_slice: u32, cluster_dimensions: UVec4) -> int {
    (xy.y * cluster_dimensions.x + xy.x) * cluster_dimensions.z + z_slice
}

/// Index of the cluster at screen cell `xy` and depth slice `z_slice`, limited
/// to the last cluster so that it always addresses the cluster buffers.
pub fn cluster_index(xy: UVec2, z_slice: u32, cluster_dimensions: UVec4) -> (r: u32)
    requires
        cluster_dimensions.w >= 1,
        xy.y * cluster_dimensions.x + xy.x <= u32::MAX,
        linear_cluster_index(xy, z_slice, cluster_dimensions) <= u32::MAX,
    ensures
        r == (if linear_cluster_index(xy, z_slice, cluster_dimensions) < cluster_dimensions.w {
            linear_cluster_index(xy, z_slice, cluster_dimensions)
        } else {
            cluster_dimensions.w - 1
        }),
        r < cluster_dimensions.w,
{
    let row = xy.y * cluster_dimensions.x;
    let column = row + xy.x;
    assert(column * cluster_dimensions.z <= u32::MAX);
    let linear = column * cluster_dimensions.z + z_slice;
    unsigned_min(linear, cluster_dimensions.w - 1)
}

/// The linear cluster index starts at 0 for cell `(0, 0)`, slice 0, and
/// grows by 1 per z slice, by the number of slices per x column, and by a
/// whole row of `x` columns per y row.
pub proof fn lemma_linear_cluster_index_steps(xy: UVec2, z_slice: u32, cluster_dimensions: UVec4)
    ensures
        linear_cluster_index(UVec2 { x: 0, y: 0 }, 0, cluster_dimensions) == 0,
        z_slice < u32::MAX ==> linear_cluster_index(xy, (z_slice + 1) as u32, cluster_dimensions)
            == linear_cluster_index(xy, z_slice, cluster_dimensions) + 1,
        xy.x < u32::MAX ==> linear_cluster_index(
            UVec2 { x: (xy.x + 1) as u32, y: xy.y },
            z_slice,
            cluster_dimensions,
        ) == linear_cluster_index(xy, z_slice, cluster_dimensions) + cluster_dimensions.z,
        xy.y < u32::MAX ==> linear_cluster_index(
            UVec2 { x: xy.x, y: (xy.y + 1) as u32 },
            z_slice,
            cluster_dimensions,
        ) == linear_cluster_index(xy, z_slice, cluster_dimensions) + cluster_dimensions.x
            * cluster_dimensions.z,
{
    let x = xy.x as int;
    let y = xy.y as int;
    let dx = cluster_dimensions.x as int;
    let dz = cluster_dimensions.z as int;
    assert((y * dx + (x + 1)) * dz == (y * dx + x) * dz + dz) by (nonlinear_arith);
    assert(((y + 1) * dx + x) * dz == (y * dx + x) * dz + dx * dz) by (nonlinear_arith);
    assert((0 * dx + 0) * dz == 0) by (nonlinear_arith);
}

} // verus!
