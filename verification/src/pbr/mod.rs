//! Selection of the lights that shade a fragment, and the marker types that
//! pick a shading variant at compile time (each has one variant, so that
//! Verus has a datatype with a value).

pub mod standard_material;

use vstd::prelude::*;

use crate::mesh_view::cluster_light_index_lists::ClusterLightIndexLists;
use crate::mesh_view::cluster_offsets_and_counts::ClusterOffsetsAndCounts;

verus! {

/// Overlays the shadow cascade of each fragment on its directional lighting.
pub enum DebugCascades {
    Selected,
}

/// Premultiplies color by alpha for multiplicative blending.
pub enum Multiply {
    Selected,
}

/// Premultiplies color by alpha for the blend, premultiplied and additive
/// alpha modes, which share one blend state.
pub enum BlendPremultipliedAlpha {
    Selected,
}

/// Ids of the point and spot lights that affect one cluster.
pub struct ClusterLights {
    pub point_light_ids: Vec<u32>,
    pub spot_light_ids: Vec<u32>,
}

/// The light ids stored at entries `start .. start + count` of the list.
pub open spec fn light_ids_from<CL: ClusterLightIndexLists>(
    lists: &CL,
    start: int,
    count: nat,
) -> Seq<u32> {
    Seq::new(count, |k: int| lists.light_id((start + k) as u32))
}

/// The ids read from `count` entries starting at `start` are exactly one per
/// entry, in list order: element `k` is the id stored at entry `start + k`,
/// whatever that id is.
pub proof fn lemma_light_ids_from_entries<CL: ClusterLightIndexLists>(
    lists: &CL,
    start: int,
    count: nat,
)
    ensures
        light_ids_from(lists, start, count).len() == count,
        forall|k: int|
            0 <= k < count ==> #[trigger] light_ids_from(lists, start, count)[k] == lists.light_id(
                (start + k) as u32,
            ),
{
}

/// Reads entries `start .. end` of the list into `ids`.
fn push_light_ids<CL: ClusterLightIndexLists>(lists: &CL, start: u32, end: u32, ids: &mut Vec<u32>)
    requires
        start <= end,
        old(ids)@.len() == 0,
        forall|i: u32| start <= i < end ==> #[trigger] lists.has_index(i),
    ensures
        final(ids)@ == light_ids_from(lists, start as int, (end - start) as nat),
        final(ids)@.len() == end - start,
        forall|k: int| 0 <= k < end - start ==> #[trigger] final(ids)@[k] == lists.light_id((start + k) as u32),
{
    let mut i = start;
    while i < end
        invariant
            start <= i <= end,
            forall|j: u32| start <= j < end ==> #[trigger] lists.has_index(j),
            ids@ == light_ids_from(lists, start as int, (i - start) as nat),
        decreases end - i,
    {
        let id = lists.get_light_id(i);
        ids.push(id);
        assert(ids@ =~= light_ids_from(lists, start as int, (i + 1 - start) as nat));
        i = i + 1;
    }
    proof {
        lemma_light_ids_from_entries(lists, start as int, (end - start) as nat);
    }
}

/// The lights of cluster `cluster_index`: its point lights are the
/// `point count` entries of the light index list from its offset on, its
/// spot lights the `spot count` entries that follow them.
pub fn cluster_lights<CL: ClusterLightIndexLists, CO: ClusterOffsetsAndCounts>(
    cluster_light_index_lists: &CL,
    cluster_offsets_and_counts: &CO,
    cluster_index: u32,
) -> (lights: ClusterLights)
    requires
        cluster_offsets_and_counts.has_cluster(cluster_index),
        ({
            let oc = cluster_offsets_and_counts.offset_and_counts(cluster_index);
            &&& oc.x + oc.y + oc.z <= u32::MAX
            &&& forall|i: u32|
                oc.x <= i < oc.x + oc.y + oc.z ==> #[trigger] cluster_light_index_lists.has_index(i)
        }),
    ensures
        ({
            let oc = cluster_offsets_and_counts.offset_and_counts(cluster_index);
            &&& lights.point_light_ids@ == light_ids_from(
                cluster_light_index_lists,
                oc.x as int,
                oc.y as nat,
            )
            &&& lights.spot_light_ids@ == light_ids_from(
                cluster_light_index_lists,
                oc.x + oc.y,
                oc.z as nat,
            )
        }),
        ({
            let oc = cluster_offsets_and_counts.offset_and_counts(cluster_index);
            &&& lights.point_light_ids@.len() == oc.y
            &&& lights.spot_light_ids@.len() == oc.z
            &&& forall|k: int|
                0 <= k < oc.y ==> #[trigger] lights.point_light_ids@[k]
                    == cluster_light_index_lists.light_id((oc.x + k) as u32)
            &&& forall|k: int|
                0 <= k < oc.z ==> #[trigger] lights.spot_light_ids@[k]
                    == cluster_light_index_lists.light_id((oc.x + oc.y + k) as u32)
        }),
{
    let offset_and_counts = cluster_offsets_and_counts.unpack(cluster_index);
    let point_start = offset_and_counts.x;
    let spot_start = point_start + offset_and_counts.y;
    let spot_end = spot_start + offset_and_counts.z;
    let mut point_light_ids = Vec::new();
    push_light_ids(cluster_light_index_lists, point_start, spot_start, &mut point_light_ids);
    let mut spot_light_ids = Vec::new();
    push_light_ids(cluster_light_index_lists, spot_start, spot_end, &mut spot_light_ids);
    ClusterLights { point_light_ids, spot_light_ids }
}

} // verus!
