//! Fog modes, as numbered in the fog uniform.

use vstd::prelude::*;

use crate::pbr::standard_material::STANDARD_MATERIAL_FLAGS_FOG_ENABLED_BIT;

verus! {

pub const FOG_MODE_OFF: u32 = 0;
pub const FOG_MODE_LINEAR: u32 = 1;
pub const FOG_MODE_EXPONENTIAL: u32 = 2;
pub const FOG_MODE_EXPONENTIAL_SQUARED: u32 = 3;
pub const FOG_MODE_ATMOSPHERIC: u32 = 4;

/// The fog falloff that a fog uniform selects.
#[derive(Clone, Copy, Debug, PartialEq, Eq, Structural)]
pub enum FogMode {
    Off,
    Linear,
    Exponential,
    ExponentialSquared,
    Atmospheric,
    /// A mode number that names no falloff: the color passes through unchanged.
    Unrecognized,
}

/// The falloff of mode number `mode`.
pub open spec fn fog_mode_of(mode: u32) -> FogMode {
    if mode == 0 {
        FogMode::Off
    } else if mode == 1 {
        FogMode::Linear
    } else if mode == 2 {
        FogMode::Exponential
    } else if mode == 3 {
        FogMode::ExponentialSquared
    } else if mode == 4 {
        FogMode::Atmospheric
    } else {
        FogMode::Unrecognized
    }
}

/// Reads a fog mode number.
pub fn fog_mode(mode: u32) -> (m: FogMode)
    ensures
        m == fog_mode_of(mode),
{
    if mode == FOG_MODE_OFF {
        FogMode::Off
    } else if mode == FOG_MODE_LINEAR {
        FogMode::Linear
    } else if mode == FOG_MODE_EXPONENTIAL {
        FogMode::Exponential
    } else if mode == FOG_MODE_EXPONENTIAL_SQUARED {
        FogMode::ExponentialSquared
    } else if mode == FOG_MODE_ATMOSPHERIC {
        FogMode::Atmospheric
    } else {
        FogMode::Unrecognized
    }
}

/// Whether fog is applied to a fragment of a material with
/// `material_flags`: the fog is on and the material has fog enabled.
pub fn fog_applies(mode: u32, material_flags: u32) -> (r: bool)
    ensures
        r == (mode != FOG_MODE_OFF && material_flags & STANDARD_MATERIAL_FLAGS_FOG_ENABLED_BIT != 0),
{
    mode != FOG_MODE_OFF && (material_flags & STANDARD_MATERIAL_FLAGS_FOG_ENABLED_BIT) != 0
}

/// Each fog mode constant reads back as its own falloff, and no other number
/// names a falloff.
pub proof fn lemma_fog_mode_of_constants(mode: u32)
    ensures
        fog_mode_of(FOG_MODE_OFF) == FogMode::Off,
        fog_mode_of(FOG_MODE_LINEAR) == FogMode::Linear,
        fog_mode_of(FOG_MODE_EXPONENTIAL) == FogMode::Exponential,
        fog_mode_of(FOG_MODE_EXPONENTIAL_SQUARED) == FogMode::ExponentialSquared,
        fog_mode_of(FOG_MODE_ATMOSPHERIC) == FogMode::Atmospheric,
        mode > FOG_MODE_ATMOSPHERIC ==> fog_mode_of(mode) == FogMode::Unrecognized,
{
}

} // verus!
