//! Trajectory tracing: per-tick sampling of the traced body and the
//! tracing toggle.
//!
//! While tracing is enabled, every fixed simulation tick records one
//! permanent-until-cleared marker at the traced body's current transform; no
//! bound on the marker count is enforced. Turning tracing off does not merely
//! pause it: it clears every accumulated marker at once.

use vstd::prelude::*;
use crate::params::SimulationParameters;
use crate::scene::{
    constraint_refs_ok, has_rigid_body, is_marker, without_markers, Role, Scene, SceneEntity,
};
use crate::vec3::Vec3Milli;

verus! {

/// One fixed-update tick of the trace sampler. The shared marker mesh and
/// material handles are created on first use, whether or not tracing is on;
/// then, if tracing is enabled and the services report a traced body's
/// transform, one new marker is registered at it.
pub fn trace_tick(
    scene: &mut Scene,
    params: &mut SimulationParameters,
    sampled: Option<Vec3Milli>,
    mesh_candidate: u64,
    material_candidate: u64,
)
    requires
        old(scene).wf(),
        old(scene).next_id < u64::MAX,
    ensures
        final(scene).wf(),
        final(params).trace_mesh == (match old(params).trace_mesh {
            Option::None => Option::Some(mesh_candidate),
            Option::Some(m) => Option::Some(m),
        }),
        final(params).trace_material == (match old(params).trace_material {
            Option::None => Option::Some(material_candidate),
            Option::Some(m) => Option::Some(m),
        }),
        *final(params) == (SimulationParameters {
            trace_mesh: final(params).trace_mesh,
            trace_material: final(params).trace_material,
            ..*old(params)
        }),
        final(scene).generation == old(scene).generation,
        final(scene).traceable == old(scene).traceable,
        old(params).tracing_enabled && sampled is Some ==> {
            &&& final(scene).entities@ == old(scene).entities@.push(
                SceneEntity {
                    id: old(scene).next_id,
                    generation: old(scene).generation,
                    role: Role::TraceMarker,
                    position: sampled->0,
                },
            )
            &&& final(scene).next_id == old(scene).next_id + 1
        },
        !(old(params).tracing_enabled && sampled is Some) ==> {
            &&& final(scene).entities@ == old(scene).entities@
            &&& final(scene).next_id == old(scene).next_id
        },
{
    params.ensure_trace_assets(mesh_candidate, material_candidate);
    if !params.tracing_enabled {
        return ;
    }
    if let Some(position) = sampled {
        let marker = SceneEntity {
            id: scene.next_id,
            generation: scene.generation,
            role: Role::TraceMarker,
            position,
        };
        scene.entities.push(marker);
        scene.next_id = scene.next_id + 1;
        proof {
            let w = scene.entities@;
            let s0 = old(scene).entities@;
            assert forall|i: int| 0 <= i < w.len() implies constraint_refs_ok(
                w,
                #[trigger] w[i],
            ) by {
                if i < s0.len() {
                    assert(w[i] == s0[i]);
                    assert(constraint_refs_ok(s0, s0[i]));
                    match w[i].role {
                        Role::Constraint { body_a, body_b, length: _ } => {
                            let ja = choose|j: int|
                                0 <= j < s0.len() && (#[trigger] s0[j]).id == body_a && s0[j].role
                                    is RigidBody;
                            assert(w[ja] == s0[ja]);
                            assert(has_rigid_body(w, body_a));
                            let jb = choose|j: int|
                                0 <= j < s0.len() && (#[trigger] s0[j]).id == body_b && s0[j].role
                                    is RigidBody;
                            assert(w[jb] == s0[jb]);
                            assert(has_rigid_body(w, body_b));
                        },
                        _ => {},
                    }
                }
            }
        }
    }
}

/// Handle one ToggleTrace command: flip the tracing flag. Enabling touches no
/// entity — sampling simply begins on the next tick; disabling immediately
/// clears every accumulated marker, so that after any toggle that leaves
/// tracing off, zero trace markers remain.
pub fn toggle_tracing(scene: &mut Scene, params: &mut SimulationParameters)
    requires
        old(scene).wf(),
    ensures
        final(scene).wf(),
        final(params).tracing_enabled == !old(params).tracing_enabled,
        *final(params) == (SimulationParameters {
            tracing_enabled: final(params).tracing_enabled,
            ..*old(params)
        }),
        final(scene).next_id == old(scene).next_id,
        final(scene).generation == old(scene).generation,
        final(scene).traceable == old(scene).traceable,
        final(params).tracing_enabled ==> final(scene).entities@ == old(scene).entities@,
        !final(params).tracing_enabled ==> {
            &&& final(scene).entities@ == without_markers(old(scene).entities@)
            &&& forall|i: int|
                0 <= i < final(scene).entities@.len() ==> !is_marker(
                    #[trigger] final(scene).entities@[i],
                )
        },
{
    params.tracing_enabled = !params.tracing_enabled;
    if !params.tracing_enabled {
        scene.clear_trace();
    }
}

} // verus!
