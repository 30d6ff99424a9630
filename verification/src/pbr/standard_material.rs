//! Bit field of a standard material: feature bits in the low bits, the alpha
//! mode in the three most significant bits.

use vstd::prelude::*;

verus! {

pub const STANDARD_MATERIAL_FLAGS_BASE_COLOR_TEXTURE_BIT: u32 = 1;
pub const STANDARD_MATERIAL_FLAGS_EMISSIVE_TEXTURE_BIT: u32 = 2;
pub const STANDARD_MATERIAL_FLAGS_METALLIC_ROUGHNESS_TEXTURE_BIT: u32 = 4;
pub const STANDARD_MATERIAL_FLAGS_OCCLUSION_TEXTURE_BIT: u32 = 8;
pub const STANDARD_MATERIAL_FLAGS_DOUBLE_SIDED_BIT: u32 = 16;
pub const STANDARD_MATERIAL_FLAGS_UNLIT_BIT: u32 = 32;
pub const STANDARD_MATERIAL_FLAGS_TWO_COMPONENT_NORMAL_MAP: u32 = 64;
pub const STANDARD_MATERIAL_FLAGS_FLIP_NORMAL_MAP_Y: u32 = 128;
pub const STANDARD_MATERIAL_FLAGS_FOG_ENABLED_BIT: u32 = 256;
/// `0b111 << 29`
pub const STANDARD_MATERIAL_FLAGS_ALPHA_MODE_RESERVED_BITS: u32 = 3758096384;
/// `0 << 29`
pub const STANDARD_MATERIAL_FLAGS_ALPHA_MODE_OPAQUE: u32 = 0;
/// `1 << 29`
pub const STANDARD_MATERIAL_FLAGS_ALPHA_MODE_MASK: u32 = 536870912;
/// `2 << 29`
pub const STANDARD_MATERIAL_FLAGS_ALPHA_MODE_BLEND: u32 = 1073741824;
/// `3 << 29`
pub const STANDARD_MATERIAL_FLAGS_ALPHA_MODE_PREMULTIPLIED: u32 = 1610612736;
/// `4 << 29`
pub const STANDARD_MATERIAL_FLAGS_ALPHA_MODE_ADD: u32 = 2147483648;
/// `5 << 29`
pub const STANDARD_MATERIAL_FLAGS_ALPHA_MODE_MULTIPLY: u32 = 2684354560;

/// How a material's alpha channel is used.
#[derive(Clone, Copy, Debug, PartialEq, Eq, Structural)]
pub enum AlphaMode {
    Opaque,
    Mask,
    Blend,
    Premultiplied,
    Add,
    Multiply,
    /// `6 << 29` and `7 << 29`, which name no mode.
    Unassigned,
}

/// The alpha mode held in the three most significant bits of `flags`.
pub open spec fn alpha_mode_of(flags: u32) -> AlphaMode {
    let mode = flags / 0x20000000;
    if mode == 0 {
        AlphaMode::Opaque
    } else if mode == 1 {
        AlphaMode::Mask
    } else if mode == 2 {
        AlphaMode::Blend
    } else if mode == 3 {
        AlphaMode::Premultiplied
    } else if mode == 4 {
        AlphaMode::Add
    } else if mode == 5 {
        AlphaMode::Multiply
    } else {
        AlphaMode::Unassigned
    }
}

/// Reads the alpha mode of a material's flags.
pub fn alpha_mode(flags: u32) -> (mode: AlphaMode)
    ensures
        mode == alpha_mode_of(flags),
{
    let alpha_mode = flags & STANDARD_MATERIAL_FLAGS_ALPHA_MODE_RESERVED_BITS;
    assert(flags & 3758096384u32 == (flags / 0x20000000u32) * 0x20000000u32) by (bit_vector);
    if alpha_mode == STANDARD_MATERIAL_FLAGS_ALPHA_MODE_OPAQUE {
        AlphaMode::Opaque
    } else if alpha_mode == STANDARD_MATERIAL_FLAGS_ALPHA_MODE_MASK {
        AlphaMode::Mask
    } else if alpha_mode == STANDARD_MATERIAL_FLAGS_ALPHA_MODE_BLEND {
        AlphaMode::Blend
    } else if alpha_mode == STANDARD_MATERIAL_FLAGS_ALPHA_MODE_PREMULTIPLIED {
        AlphaMode::Premultiplied
    } else if alpha_mode == STANDARD_MATERIAL_FLAGS_ALPHA_MODE_ADD {
        AlphaMode::Add
    } else if alpha_mode == STANDARD_MATERIAL_FLAGS_ALPHA_MODE_MULTIPLY {
        AlphaMode::Multiply
    } else {
        AlphaMode::Unassigned
    }
}

/// What alpha discarding does to a fragment's color.
#[derive(Clone, Copy, Debug, PartialEq, Eq, Structural)]
pub enum AlphaDiscard {
    /// Keep the color, alpha set to one.
    SetOpaque,
    /// Drop the fragment.
    Discard,
    /// Keep the color as it is.
    Keep,
}

/// The alpha discard decision for a material with `flags`, given whether the
/// color's alpha reaches the material's alpha cutoff: opaque materials
/// ignore alpha, masked ones are opaque at or above the cutoff and discarded
/// below it, all others keep their alpha.
pub fn alpha_discard_action(flags: u32, alpha_reaches_cutoff: bool) -> (action: AlphaDiscard)
    ensures
        action == (match alpha_mode_of(flags) {
            AlphaMode::Opaque => AlphaDiscard::SetOpaque,
            AlphaMode::Mask => if alpha_reaches_cutoff {
                AlphaDiscard::SetOpaque
            } else {
                AlphaDiscard::Discard
            },
            _ => AlphaDiscard::Keep,
        }),
{
    match alpha_mode(flags) {
        AlphaMode::Opaque => AlphaDiscard::SetOpaque,
        AlphaMode::Mask => if alpha_reaches_cutoff {
            AlphaDiscard::SetOpaque
        } else {
            AlphaDiscard::Discard
        },
        _ => AlphaDiscard::Keep,
    }
}

/// Each alpha mode constant is its mode number shifted into the three most
/// significant bits, the reserved bits are exactly those three bits, and no
/// feature bit overlaps them.
pub proof fn lemma_alpha_mode_constants()
    ensures
        STANDARD_MATERIAL_FLAGS_BASE_COLOR_TEXTURE_BIT & STANDARD_MATERIAL_FLAGS_ALPHA_MODE_RESERVED_BITS == 0,
        STANDARD_MATERIAL_FLAGS_EMISSIVE_TEXTURE_BIT & STANDARD_MATERIAL_FLAGS_ALPHA_MODE_RESERVED_BITS == 0,
        STANDARD_MATERIAL_FLAGS_METALLIC_ROUGHNESS_TEXTURE_BIT & STANDARD_MATERIAL_FLAGS_ALPHA_MODE_RESERVED_BITS == 0,
        STANDARD_MATERIAL_FLAGS_OCCLUSION_TEXTURE_BIT & STANDARD_MATERIAL_FLAGS_ALPHA_MODE_RESERVED_BITS == 0,
        STANDARD_MATERIAL_FLAGS_DOUBLE_SIDED_BIT & STANDARD_MATERIAL_FLAGS_ALPHA_MODE_RESERVED_BITS == 0,
        STANDARD_MATERIAL_FLAGS_UNLIT_BIT & STANDARD_MATERIAL_FLAGS_ALPHA_MODE_RESERVED_BITS == 0,
        STANDARD_MATERIAL_FLAGS_TWO_COMPONENT_NORMAL_MAP & STANDARD_MATERIAL_FLAGS_ALPHA_MODE_RESERVED_BITS == 0,
        STANDARD_MATERIAL_FLAGS_FLIP_NORMAL_MAP_Y & STANDARD_MATERIAL_FLAGS_ALPHA_MODE_RESERVED_BITS == 0,
        STANDARD_MATERIAL_FLAGS_FOG_ENABLED_BIT & STANDARD_MATERIAL_FLAGS_ALPHA_MODE_RESERVED_BITS == 0,
        STANDARD_MATERIAL_FLAGS_ALPHA_MODE_RESERVED_BITS == 7u32 << 29u32,
        STANDARD_MATERIAL_FLAGS_ALPHA_MODE_OPAQUE == 0u32 << 29u32,
        STANDARD_MATERIAL_FLAGS_ALPHA_MODE_MASK == 1u32 << 29u32,
        STANDARD_MATERIAL_FLAGS_ALPHA_MODE_BLEND == 2u32 << 29u32,
        STANDARD_MATERIAL_FLAGS_ALPHA_MODE_PREMULTIPLIED == 3u32 << 29u32,
        STANDARD_MATERIAL_FLAGS_ALPHA_MODE_ADD == 4u32 << 29u32,
        STANDARD_MATERIAL_FLAGS_ALPHA_MODE_MULTIPLY == 5u32 << 29u32,
{
    assert(1u32 & 3758096384u32 == 0 && 2u32 & 3758096384u32 == 0 && 4u32 & 3758096384u32 == 0
        && 8u32 & 3758096384u32 == 0 && 16u32 & 3758096384u32 == 0 && 32u32 & 3758096384u32 == 0
        && 64u32 & 3758096384u32 == 0 && 128u32 & 3758096384u32 == 0 && 256u32 & 3758096384u32
        == 0) by (bit_vector);
    assert(3758096384u32 == 7u32 << 29u32 && 0u32 == 0u32 << 29u32 && 536870912u32 == 1u32 << 29u32
        && 1073741824u32 == 2u32 << 29u32 && 1610612736u32 == 3u32 << 29u32 && 2147483648u32 == 4u32
        << 29u32 && 2684354560u32 == 5u32 << 29u32) by (bit_vector);
}

/// Setting or clearing any feature bit (one below the alpha mode bits) never
/// changes a material's alpha mode.
pub proof fn lemma_feature_bits_keep_alpha_mode(flags: u32, bits: u32)
    requires
        bits & STANDARD_MATERIAL_FLAGS_ALPHA_MODE_RESERVED_BITS == 0,
    ensures
        alpha_mode_of(flags | bits) == alpha_mode_of(flags),
        alpha_mode_of(flags & !bits) == alpha_mode_of(flags),
{
    assert((flags | bits) / 0x20000000u32 == flags / 0x20000000u32 && (flags & !bits) / 0x20000000u32
        == flags / 0x20000000u32) by (bit_vector)
        requires
            bits & 3758096384u32 == 0u32,
    ;
}

/// Each alpha mode constant, with any feature bits set beside it, reads back
/// as its own mode; the two unnamed values of the mode bits read as
/// `Unassigned`.
pub proof fn lemma_alpha_mode_of_constants(features: u32)
    requires
        features & STANDARD_MATERIAL_FLAGS_ALPHA_MODE_RESERVED_BITS == 0,
    ensures
        alpha_mode_of(STANDARD_MATERIAL_FLAGS_ALPHA_MODE_OPAQUE | features) == AlphaMode::Opaque,
        alpha_mode_of(STANDARD_MATERIAL_FLAGS_ALPHA_MODE_MASK | features) == AlphaMode::Mask,
        alpha_mode_of(STANDARD_MATERIAL_FLAGS_ALPHA_MODE_BLEND | features) == AlphaMode::Blend,
        alpha_mode_of(STANDARD_MATERIAL_FLAGS_ALPHA_MODE_PREMULTIPLIED | features)
            == AlphaMode::Premultiplied,
        alpha_mode_of(STANDARD_MATERIAL_FLAGS_ALPHA_MODE_ADD | features) == AlphaMode::Add,
        alpha_mode_of(STANDARD_MATERIAL_FLAGS_ALPHA_MODE_MULTIPLY | features) == AlphaMode::Multiply,
        alpha_mode_of((6u32 << 29u32) | features) == AlphaMode::Unassigned,
        alpha_mode_of((7u32 << 29u32) | features) == AlphaMode::Unassigned,
{
    assert(features & 3758096384u32 == 0u32 ==> (0u32 | features) / 0x20000000u32 == 0u32 && (
    536870912u32 | features) / 0x20000000u32 == 1u32 && (1073741824u32 | features) / 0x20000000u32
        == 2u32 && (1610612736u32 | features) / 0x20000000u32 == 3u32 && (2147483648u32 | features)
        / 0x20000000u32 == 4u32 && (2684354560u32 | features) / 0x20000000u32 == 5u32 && ((6u32
        << 29u32) | features) / 0x20000000u32 == 6u32 && ((7u32 << 29u32) | features) / 0x20000000u32
        == 7u32) by (bit_vector);
}

} // verus!
