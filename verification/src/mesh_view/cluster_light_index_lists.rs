//! The flattened list of light ids that the clusters index into.

use vstd::prelude::*;

use crate::vector::UVec4;

verus! {

/// Byte `b` (0 is the least significant) of `word`.
pub open spec fn byte_of(word: u32, b: int) -> u32 {
    if b == 0 {
        word % 0x100
    } else if b == 1 {
        (word / 0x100) % 0x100
    } else if b == 2 {
        (word / 0x10000) % 0x100
    } else {
        word / 0x1000000
    }
}

/// The word whose bytes, least significant first, are `b0`, `b1`, `b2`, `b3`.
pub open spec fn pack_bytes(b0: u8, b1: u8, b2: u8, b3: u8) -> nat {
    b0 as nat + b1 as nat * 0x100 + b2 as nat * 0x10000 + b3 as nat * 0x1000000
}

/// Maps an entry of the cluster light index list to a light id.
pub trait ClusterLightIndexLists {
    /// Whether `index` addresses an entry of the list.
    spec fn has_index(&self, index: u32) -> bool;

    /// The light id stored at `index`.
    spec fn light_id(&self, index: u32) -> u32;

    fn get_light_id(&self, index: u32) -> (id: u32)
        requires
            self.has_index(index),
        ensures
            id == self.light_id(index),
    ;
}

/// Uniform layout: four one-byte light ids to a word, four words to a vector.
pub type ClusterLightIndexListsUniform<'a> = &'a [UVec4; 1024];

impl ClusterLightIndexLists for ClusterLightIndexListsUniform<'_> {
    open spec fn has_index(&self, index: u32) -> bool {
        index < 16384
    }

    /// Byte `index % 4` of word `index / 4`.
    open spec fn light_id(&self, index: u32) -> u32 {
        let word = index / 4;
        byte_of(self@[(word / 4) as int].component((word % 4) as int), (index % 4) as int)
    }

    fn get_light_id(&self, index: u32) -> (id: u32) {
        assert(index >> 4u32 == (index / 4) / 4 && (index >> 2u32) & 3u32 == (index / 4) % 4
            && index & 3u32 == index % 4 && (1u32 << 2u32) == 4 && (1u32 << 8u32) == 256)
            by (bit_vector);
        // The index into the vectors is index / 16: four bytes to a word, four words to a vector.
        let v = self[(index >> 4) as usize];
        let indices = v.get((index >> 2) & ((1 << 2) - 1));
        // index % 4 is the byte within the word.
        let sub_index = index & ((1 << 2) - 1);
        assert(sub_index < 4);
        let shift = 8 * sub_index;
        assert((indices >> 0u32) & 255u32 == indices % 0x100u32) by (bit_vector);
        assert((indices >> 8u32) & 255u32 == (indices / 0x100u32) % 0x100u32) by (bit_vector);
        assert((indices >> 16u32) & 255u32 == (indices / 0x10000u32) % 0x100u32) by (bit_vector);
        assert((indices >> 24u32) & 255u32 == indices / 0x1000000u32) by (bit_vector);
        (indices >> shift) & ((1 << 8) - 1)
    }
}

/// Storage layout: one light id per word.
pub type ClusterLightIndexListsStorage<'a> = &'a [u32];

impl ClusterLightIndexLists for ClusterLightIndexListsStorage<'_> {
    open spec fn has_index(&self, index: u32) -> bool {
        index < self@.len()
    }

    open spec fn light_id(&self, index: u32) -> u32 {
        self@[index as int]
    }

    fn get_light_id(&self, index: u32) -> (id: u32) {
        self[index as usize]
    }
}

/// Reading byte `b` of a word packed from four light ids gives back the
/// light id that was packed at position `b`.
pub proof fn lemma_packed_light_ids_round_trip(b0: u8, b1: u8, b2: u8, b3: u8)
    ensures
        pack_bytes(b0, b1, b2, b3) <= u32::MAX,
        byte_of(pack_bytes(b0, b1, b2, b3) as u32, 0) == b0,
        byte_of(pack_bytes(b0, b1, b2, b3) as u32, 1) == b1,
        byte_of(pack_bytes(b0, b1, b2, b3) as u32, 2) == b2,
        byte_of(pack_bytes(b0, b1, b2, b3) as u32, 3) == b3,
{
    let w = pack_bytes(b0, b1, b2, b3);
    assert(w <= u32::MAX) by (nonlinear_arith)
        requires
            w == b0 as nat + b1 as nat * 0x100 + b2 as nat * 0x10000 + b3 as nat * 0x1000000,
            b0 < 256,
            b1 < 256,
            b2 < 256,
            b3 < 256,
    ;
    assert(w % 0x100 == b0 && (w / 0x100) % 0x100 == b1 && (w / 0x10000) % 0x100 == b2 && w
        / 0x1000000 == b3) by (nonlinear_arith)
        requires
            w == b0 as nat + b1 as nat * 0x100 + b2 as nat * 0x10000 + b3 as nat * 0x1000000,
            b0 < 256,
            b1 < 256,
            b2 < 256,
            b3 < 256,
    ;
}

/// Every byte of a word is below 256, and the word is the packing of its
/// four bytes: a light id read from the uniform layout always fits a byte.
pub proof fn lemma_word_bytes(word: u32)
    ensures
        byte_of(word, 0) < 0x100,
        byte_of(word, 1) < 0x100,
        byte_of(word, 2) < 0x100,
        byte_of(word, 3) < 0x100,
        pack_bytes(
            byte_of(word, 0) as u8,
            byte_of(word, 1) as u8,
            byte_of(word, 2) as u8,
            byte_of(word, 3) as u8,
        ) == word,
{
    let w = word as nat;
    assert(w / 0x1000000 < 0x100 && w == w % 0x100 + ((w / 0x100) % 0x100) * 0x100 + ((w / 0x10000)
        % 0x100) * 0x10000 + (w / 0x1000000) * 0x1000000) by (nonlinear_arith)
        requires
            w <= u32::MAX,
    ;
}

/// In the uniform layout, entry `16 * v + 4 * c + j` is byte `j` of component
/// `c` of vector `v`: if that component was packed from four light ids, the
/// entries `16 * v + 4 * c .. 16 * v + 4 * c + 4` read back those ids, in order.
pub proof fn lemma_uniform_light_id_layout(
    list: ClusterLightIndexListsUniform,
    v: int,
    c: int,
    b0: u8,
    b1: u8,
    b2: u8,
    b3: u8,
)
    requires
        0 <= v < 1024,
        0 <= c < 4,
        list@[v].component(c) as nat == pack_bytes(b0, b1, b2, b3),
    ensures
        list.has_index((16 * v + 4 * c) as u32),
        list.has_index((16 * v + 4 * c + 3) as u32),
        list.light_id((16 * v + 4 * c) as u32) == b0,
        list.light_id((16 * v + 4 * c + 1) as u32) == b1,
        list.light_id((16 * v + 4 * c + 2) as u32) == b2,
        list.light_id((16 * v + 4 * c + 3) as u32) == b3,
{
    lemma_packed_light_ids_round_trip(b0, b1, b2, b3);
    let base = 16 * v + 4 * c;
    assert forall|j: int| 0 <= j < 4 implies (#[trigger] ((base + j) / 4)) == 4 * v + c && (base + j)
        % 4 == j && (4 * v + c) / 4 == v && (4 * v + c) % 4 == c by {}
    assert(((base + 0) / 4) == 4 * v + c);
    assert(((base + 1) / 4) == 4 * v + c);
    assert(((base + 2) / 4) == 4 * v + c);
    assert(((base + 3) / 4) == 4 * v + c);
}

/// In the storage layout, entry `index` is the word at position `index`.
pub proof fn lemma_storage_light_id_layout(list: ClusterLightIndexListsStorage, index: u32)
    requires
        index < list@.len(),
    ensures
        list.has_index(index),
        list.light_id(index) == list@[index as int],
{
}

} // verus!
