use bevy_pbr_rust::mesh_view::cluster_light_index_lists::{
    ClusterLightIndexListsStorage, ClusterLightIndexListsUniform,
};
use bevy_pbr_rust::mesh_view::cluster_offsets_and_counts::{
    ClusterOffsetsAndCountsStorage, ClusterOffsetsAndCountsUniform,
};
use bevy_pbr_rust::mesh_view::lights::{clamp_z_slice, cluster_index, unsigned_min};
use bevy_pbr_rust::pbr::cluster_lights;
use bevy_pbr_rust::vector::{UVec2, UVec4};

#[test]
fn unsigned_min_picks_smaller() {
    assert_eq!(unsigned_min(3, 9), 3);
    assert_eq!(unsigned_min(9, 3), 3);
    assert_eq!(unsigned_min(4, 4), 4);
    assert_eq!(unsigned_min(0, u32::MAX), 0);
}

#[test]
fn z_slice_is_clamped_to_last_slice() {
    let dims = UVec4::new(16, 9, 24, 3456);
    assert_eq!(clamp_z_slice(0, dims), 0);
    assert_eq!(clamp_z_slice(23, dims), 23);
    assert_eq!(clamp_z_slice(24, dims), 23);
    assert_eq!(clamp_z_slice(u32::MAX, dims), 23);
    assert_eq!(clamp_z_slice(5, UVec4::new(1, 1, 1, 1)), 0);
}

#[test]
fn cluster_index_is_linear_inside_the_grid() {
    let dims = UVec4::new(16, 9, 24, 16 * 9 * 24);
    // (y * 16 + x) * 24 + z
    assert_eq!(cluster_index(UVec2::new(0, 0), 0, dims), 0);
    assert_eq!(cluster_index(UVec2::new(3, 2), 5, dims), (2 * 16 + 3) * 24 + 5);
    assert_eq!(cluster_index(UVec2::new(15, 8), 23, dims), 16 * 9 * 24 - 1);
}

#[test]
fn cluster_index_is_clamped_to_last_cluster() {
    let dims = UVec4::new(16, 9, 24, 16 * 9 * 24);
    assert_eq!(cluster_index(UVec2::new(0, 9), 0, dims), 16 * 9 * 24 - 1);
    assert_eq!(cluster_index(UVec2::new(15, 8), 24, dims), 16 * 9 * 24 - 1);
    let small = UVec4::new(2, 2, 2, 5);
    assert_eq!(cluster_index(UVec2::new(1, 1), 1, small), 4);
}

#[test]
fn cluster_lights_from_storage_buffers() {
    let lists_data = [10u32, 11, 12, 13, 14, 15, 16];
    let counts_data = [UVec4::new(0, 0, 0, 0), UVec4::new(1, 2, 3, 0)];
    let lists: ClusterLightIndexListsStorage = &lists_data;
    let counts: ClusterOffsetsAndCountsStorage = &counts_data;
    let lights = cluster_lights(&lists, &counts, 1);
    assert_eq!(lights.point_light_ids, vec![11, 12]);
    assert_eq!(lights.spot_light_ids, vec![13, 14, 15]);
    let empty = cluster_lights(&lists, &counts, 0);
    assert!(empty.point_light_ids.is_empty());
    assert!(empty.spot_light_ids.is_empty());
}

#[test]
fn cluster_lights_from_uniform_buffers() {
    let mut lists_data = [UVec4::new(0, 0, 0, 0); 1024];
    // Entries 4..8 hold light ids 40, 41, 42, 43.
    lists_data[0].y = 40 | 41 << 8 | 42 << 16 | 43 << 24;
    let mut counts_data = [UVec4::new(0, 0, 0, 0); 1024];
    // Cluster 6: offset 4, one point light, three spot lights.
    counts_data[1].z = 4 << 18 | 1 << 9 | 3;
    let lists: ClusterLightIndexListsUniform = &lists_data;
    let counts: ClusterOffsetsAndCountsUniform = &counts_data;
    let lights = cluster_lights(&lists, &counts, 6);
    assert_eq!(lights.point_light_ids, vec![40]);
    assert_eq!(lights.spot_light_ids, vec![41, 42, 43]);
}
