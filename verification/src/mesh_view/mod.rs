pub mod cluster_light_index_lists;
pub mod cluster_offsets_and_counts;
pub mod directional_light;
pub mod lights;
