# bevy_pbr_rust

The integer core of a physically based rendering shader library, verified
with Verus, and the floating-point shading around it.

- `src/` (verified): the packed layouts of the clustered forward light
  buffers (`mesh_view::cluster_light_index_lists`,
  `mesh_view::cluster_offsets_and_counts`), the cluster index of a fragment
  (`mesh_view::lights`), the selection of a cluster's point and spot lights
  (`pbr::cluster_lights`), and the bit fields of materials, fog and lights.
- `app/` (ordinary Rust on `spirv-std`): tonemapping, fog falloffs,
  environment lighting, alpha handling, which work on `f32` values and call
  the verified library for their integer decisions.
- `tests/`: tests of the verified library.
