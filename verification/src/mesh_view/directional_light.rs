//! Bit field of a directional light.

use vstd::prelude::*;

verus! {

/// Set in a directional light's flags when the light casts shadows.
pub const DIRECTIONAL_LIGHT_FLAGS_SHADOWS_ENABLED_BIT: u32 = 1;

} // verus!
