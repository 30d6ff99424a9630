//! Integer core of a physically based rendering shader library: the packed
//! layout of the clustered forward light buffers, the cluster index of a
//! fragment, and the bit-field encodings of material, fog and light flags.

pub mod vector;
pub mod mesh_view;
pub mod pbr;
pub mod fog;
pub mod tonemapping_shared;
