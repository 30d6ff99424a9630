//! Per-cluster offset into the light index list, and the number of point and
//! spot lights of the cluster.

use vstd::prelude::*;

use crate::vector::{UVec3, UVec4};

verus! {

/// Width in bits of each light count in a packed uniform word.
pub const CLUSTER_COUNT_SIZE: u32 = 9;

/// Splits a packed word into offset, point light count and spot light count:
///
/// `[ 31 .. 18 | 17 .. 9 | 8 .. 0 ]` = `[ offset | point light count | spot light count ]`
pub open spec fn unpack_word(word: u32) -> UVec3 {
    UVec3 {
        x: (word / 0x40000) as u32,
        y: ((word / 0x200) % 0x200) as u32,
        z: (word % 0x200) as u32,
    }
}

/// The word that holds `offset`, `point_count` and `spot_count` in the layout
/// read by [`unpack_word`].
pub open spec fn pack_word(offset: nat, point_count: nat, spot_count: nat) -> nat {
    offset * 0x40000 + point_count * 0x200 + spot_count
}

/// Where a cluster's lights start in the light index list, and how many
/// point and spot lights it holds.
pub trait ClusterOffsetsAndCounts {
    /// Whether `cluster_index` addresses a cluster of the buffer.
    spec fn has_cluster(&self, cluster_index: u32) -> bool;

    /// `(offset, point light count, spot light count)` of the cluster.
    spec fn offset_and_counts(&self, cluster_index: u32) -> UVec3;

    fn unpack(&self, cluster_index: u32) -> (r: UVec3)
        requires
            self.has_cluster(cluster_index),
        ensures
            r == self.offset_and_counts(cluster_index),
    ;
}

/// Uniform layout: each cluster is one word, four words to a vector.
pub type ClusterOffsetsAndCountsUniform<'a> = &'a [UVec4; 1024];

impl ClusterOffsetsAndCounts for ClusterOffsetsAndCountsUniform<'_> {
    open spec fn has_cluster(&self, cluster_index: u32) -> bool {
        cluster_index < 4096
    }

    open spec fn offset_and_counts(&self, cluster_index: u32) -> UVec3 {
        unpack_word(self@[(cluster_index / 4) as int].component((cluster_index % 4) as int))
    }

    fn unpack(&self, cluster_index: u32) -> (r: UVec3) {
        assert(cluster_index >> 2u32 == cluster_index / 4 && cluster_index & 3u32 == cluster_index
            % 4 && (1u32 << 2u32) == 4) by (bit_vector);
        let v = self[(cluster_index >> 2) as usize];
        let i = cluster_index & ((1 << 2) - 1);
        let offset_and_counts = v.get(i);
        let shift = CLUSTER_COUNT_SIZE * 2;
        let w = offset_and_counts;
        // [ 31 .. 18 | 17 .. 9 | 8 .. 0 ] = [ offset | point light count | spot light count ]
        assert((w >> 18u32) & 16383u32 == w / 0x40000u32) by (bit_vector);
        assert((w >> 9u32) & 511u32 == (w / 0x200u32) % 0x200u32) by (bit_vector);
        assert(w & 511u32 == w % 0x200u32) by (bit_vector);
        assert((1u32 << 14u32) == 16384 && (1u32 << 9u32) == 512) by (bit_vector);
        UVec3::new(
            (offset_and_counts >> shift) & ((1u32 << (32 - shift)) - 1),
            (offset_and_counts >> CLUSTER_COUNT_SIZE) & ((1u32 << CLUSTER_COUNT_SIZE) - 1),
            offset_and_counts & ((1u32 << CLUSTER_COUNT_SIZE) - 1),
        )
    }
}

/// Storage layout: one vector per cluster, `w` unused.
pub type ClusterOffsetsAndCountsStorage<'a> = &'a [UVec4];

impl ClusterOffsetsAndCounts for ClusterOffsetsAndCountsStorage<'_> {
    open spec fn has_cluster(&self, cluster_index: u32) -> bool {
        cluster_index < self@.len()
    }

    open spec fn offset_and_counts(&self, cluster_index: u32) -> UVec3 {
        let v = self@[cluster_index as int];
        UVec3 { x: v.x, y: v.y, z: v.z }
    }

    fn unpack(&self, cluster_index: u32) -> (r: UVec3) {
        self[cluster_index as usize].truncate()
    }
}

/// An offset below 2^14 and two counts below 2^9 fit one word, and unpacking
/// that word gives them back.
pub proof fn lemma_offset_and_counts_round_trip(offset: nat, point_count: nat, spot_count: nat)
    requires
        offset < 0x4000,
        point_count < 0x200,
        spot_count < 0x200,
    ensures
        pack_word(offset, point_count, spot_count) <= u32::MAX,
        unpack_word(pack_word(offset, point_count, spot_count) as u32) == (UVec3 {
            x: offset as u32,
            y: point_count as u32,
            z: spot_count as u32,
        }),
{
    let w = pack_word(offset, point_count, spot_count);
    assert(w <= u32::MAX && w / 0x40000 == offset && (w / 0x200) % 0x200 == point_count && w
        % 0x200 == spot_count) by (nonlinear_arith)
        requires
            w == offset * 0x40000 + point_count * 0x200 + spot_count,
            offset < 0x4000,
            point_count < 0x200,
            spot_count < 0x200,
    ;
}

/// Every word is the packing of its unpacked fields, and the fields are
/// within their widths: the offset below 2^14, each count below 2^9.
pub proof fn lemma_unpack_word_fields(word: u32)
    ensures
        unpack_word(word).x < 0x4000,
        unpack_word(word).y < 0x200,
        unpack_word(word).z < 0x200,
        pack_word(
            unpack_word(word).x as nat,
            unpack_word(word).y as nat,
            unpack_word(word).z as nat,
        ) == word,
{
    let w = word as nat;
    assert(w / 0x40000 < 0x4000 && w == (w / 0x40000) * 0x40000 + ((w / 0x200) % 0x200) * 0x200 + w
        % 0x200) by (nonlinear_arith)
        requires
            w <= u32::MAX,
    ;
}

/// In the uniform layout, cluster `4 * v + c` is component `c` of vector
/// `v`: if that component was packed from an offset and two counts, unpacking
/// the cluster gives them back.
pub proof fn lemma_uniform_cluster_layout(
    buffer: ClusterOffsetsAndCountsUniform,
    v: int,
    c: int,
    offset: nat,
    point_count: nat,
    spot_count: nat,
)
    requires
        0 <= v < 1024,
        0 <= c < 4,
        offset < 0x4000,
        point_count < 0x200,
        spot_count < 0x200,
        buffer@[v].component(c) as nat == pack_word(offset, point_count, spot_count),
    ensures
        buffer.has_cluster((4 * v + c) as u32),
        buffer.offset_and_counts((4 * v + c) as u32) == (UVec3 {
            x: offset as u32,
            y: point_count as u32,
            z: spot_count as u32,
        }),
{
    lemma_offset_and_counts_round_trip(offset, point_count, spot_count);
    assert((4 * v + c) / 4 == v && (4 * v + c) % 4 == c);
}

/// In the storage layout, cluster `cluster_index` is the vector at position
/// `cluster_index`, without its `w` component.
pub proof fn lemma_storage_cluster_layout(buffer: ClusterOffsetsAndCountsStorage, cluster_index: u32)
    requires
        cluster_index < buffer@.len(),
    ensures
        buffer.has_cluster(cluster_index),
        buffer.offset_and_counts(cluster_index) == (UVec3 {
            x: buffer@[cluster_index as int].x,
            y: buffer@[cluster_index as int].y,
            z: buffer@[cluster_index as int].z,
        }),
{
}

} // verus!
