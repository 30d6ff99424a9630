//! Tonemapping methods that sample a display transform lookup table. Each is
//! a marker type that selects a lookup table at compile time; its one variant
//! only gives Verus a datatype with a value.

use vstd::prelude::*;

verus! {

/// AgX, sampled from its lookup table.
pub enum TonemapMethodAgx {
    Selected,
}

/// Tony McMapface, sampled from its lookup table.
pub enum TonemapMethodTonyMcMapFace {
    Selected,
}

/// Blender Filmic, sampled from its lookup table.
pub enum TonemapMethodBlenderFilmic {
    Selected,
}

} // verus!
