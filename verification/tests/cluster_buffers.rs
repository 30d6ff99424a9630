use bevy_pbr_rust::mesh_view::cluster_light_index_lists::{
    ClusterLightIndexLists, ClusterLightIndexListsStorage, ClusterLightIndexListsUniform,
};
use bevy_pbr_rust::mesh_view::cluster_offsets_and_counts::{
    ClusterOffsetsAndCounts, ClusterOffsetsAndCountsStorage, ClusterOffsetsAndCountsUniform,
    CLUSTER_COUNT_SIZE,
};
use bevy_pbr_rust::vector::{UVec3, UVec4};

fn pack_ids(ids: [u8; 4]) -> u32 {
    ids[0] as u32 | (ids[1] as u32) << 8 | (ids[2] as u32) << 16 | (ids[3] as u32) << 24
}

fn pack_counts(offset: u32, point: u32, spot: u32) -> u32 {
    offset << (CLUSTER_COUNT_SIZE * 2) | point << CLUSTER_COUNT_SIZE | spot
}

#[test]
fn uniform_light_ids_round_trip_every_byte() {
    let mut data = [UVec4::new(0, 0, 0, 0); 1024];
    // Vector 2 holds light index entries 32..48.
    data[2] = UVec4::new(
        pack_ids([1, 2, 3, 4]),
        pack_ids([5, 6, 7, 8]),
        pack_ids([9, 10, 11, 12]),
        pack_ids([13, 14, 15, 255]),
    );
    let lists: ClusterLightIndexListsUniform = &data;
    for k in 0..16u32 {
        let expected = if k == 15 { 255 } else { k + 1 };
        assert_eq!(lists.get_light_id(32 + k), expected);
    }
    assert_eq!(lists.get_light_id(0), 0);
    assert_eq!(lists.get_light_id(48), 0);
}

#[test]
fn uniform_light_id_last_entry() {
    let mut data = [UVec4::new(0, 0, 0, 0); 1024];
    data[1023].w = 0xAB00_0000;
    let lists: ClusterLightIndexListsUniform = &data;
    assert_eq!(lists.get_light_id(16383), 0xAB);
    assert_eq!(lists.get_light_id(16382), 0);
}

#[test]
fn storage_light_id_is_the_word() {
    let data = [7u32, 300, 70000];
    let lists: ClusterLightIndexListsStorage = &data;
    assert_eq!(lists.get_light_id(0), 7);
    assert_eq!(lists.get_light_id(1), 300);
    assert_eq!(lists.get_light_id(2), 70000);
}

#[test]
fn uniform_unpack_fields() {
    let mut data = [UVec4::new(0, 0, 0, 0); 1024];
    data[3].z = pack_counts(1000, 17, 300);
    let buffer: ClusterOffsetsAndCountsUniform = &data;
    // Cluster 14 is component z of vector 3.
    assert_eq!(buffer.unpack(14), UVec3::new(1000, 17, 300));
    assert_eq!(buffer.unpack(13), UVec3::new(0, 0, 0));
}

#[test]
fn uniform_unpack_full_widths() {
    let mut data = [UVec4::new(0, 0, 0, 0); 1024];
    data[0].x = u32::MAX;
    data[1023].w = pack_counts(16383, 511, 0);
    let buffer: ClusterOffsetsAndCountsUniform = &data;
    assert_eq!(buffer.unpack(0), UVec3::new(16383, 511, 511));
    assert_eq!(buffer.unpack(4095), UVec3::new(16383, 511, 0));
}

#[test]
fn uniform_unpack_round_trip() {
    let mut data = [UVec4::new(0, 0, 0, 0); 1024];
    let cases = [(0, 0, 0), (1, 2, 3), (16383, 0, 511), (8192, 256, 1)];
    for (c, &(o, p, s)) in cases.iter().enumerate() {
        data[c / 4] = {
            let mut v = data[c / 4];
            match c % 4 {
                0 => v.x = pack_counts(o, p, s),
                1 => v.y = pack_counts(o, p, s),
                2 => v.z = pack_counts(o, p, s),
                _ => v.w = pack_counts(o, p, s),
            }
            v
        };
    }
    let buffer: ClusterOffsetsAndCountsUniform = &data;
    for (c, &(o, p, s)) in cases.iter().enumerate() {
        assert_eq!(buffer.unpack(c as u32), UVec3::new(o, p, s));
    }
}

#[test]
fn storage_unpack_drops_w() {
    let data = [UVec4::new(1, 2, 3, 4), UVec4::new(100000, 5, 6, 7)];
    let buffer: ClusterOffsetsAndCountsStorage = &data;
    assert_eq!(buffer.unpack(0), UVec3::new(1, 2, 3));
    assert_eq!(buffer.unpack(1), UVec3::new(100000, 5, 6));
}
