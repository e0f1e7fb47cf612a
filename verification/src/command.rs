//! Discrete lifecycle commands and their dispatch.
//!
//! The settings surface emits at most one discrete command per interaction
//! tick; the lifecycle controller drains them once per tick, before the
//! external simulation steps, so a restart's despawns and spawns are fully
//! applied before any further state advances.

use vstd::prelude::*;
use crate::geometry::solver_domain;
use crate::params::SimulationParameters;
use crate::scene::{is_marker, restart_entities, without_markers, Scene};
use crate::trace::toggle_tracing;

verus! {

/// A discrete command from the settings surface.
#[derive(PartialEq, Eq, Structural, Clone, Copy, Debug)]
pub enum Command {
    /// Rebuild the whole scene from the current parameters.
    Restart,
    /// Flip trajectory tracing; turning it off clears all markers.
    ToggleTrace,
    /// Remove every trace marker, touching nothing else.
    ClearTrace,
}

/// Dispatch one drained command against the scene and the parameters.
pub fn apply_command(scene: &mut Scene, params: &mut SimulationParameters, cmd: Command)
    requires
        old(scene).wf(),
        cmd is Restart ==> solver_domain(*old(params)) && old(scene).next_id + 6 <= u64::MAX
            && old(scene).generation < u64::MAX,
    ensures
        final(scene).wf(),
        cmd is Restart ==> {
            &&& *final(params) == *old(params)
            &&& final(scene).generation == old(scene).generation + 1
            &&& final(scene).next_id == old(scene).next_id + 6
            &&& final(scene).traceable == Some((old(scene).next_id + 2) as u64)
            &&& final(scene).entities@ == restart_entities(
                *old(params),
                (old(scene).generation + 1) as u64,
                old(scene).next_id,
            )
        },
        cmd is ToggleTrace ==> {
            &&& final(params).tracing_enabled == !old(params).tracing_enabled
            &&& *final(params) == (SimulationParameters {
                tracing_enabled: final(params).tracing_enabled,
                ..*old(params)
            })
            &&& final(scene).next_id == old(scene).next_id
            &&& final(scene).generation == old(scene).generation
            &&& final(scene).traceable == old(scene).traceable
            &&& (final(params).tracing_enabled ==> final(scene).entities@ == old(
                scene,
            ).entities@)
            &&& (!final(params).tracing_enabled ==> final(scene).entities@ == without_markers(
                old(scene).entities@,
            ))
        },
        cmd is ClearTrace ==> {
            &&& *final(params) == *old(params)
            &&& final(scene).entities@ == without_markers(old(scene).entities@)
            &&& final(scene).next_id == old(scene).next_id
            &&& final(scene).generation == old(scene).generation
            &&& final(scene).traceable == old(scene).traceable
            &&& forall|i: int|
                0 <= i < final(scene).entities@.len() ==> !is_marker(
                    #[trigger] final(scene).entities@[i],
                )
        },
{
    match cmd {
        Command::Restart => {
            scene.restart(params);
        },
        Command::ToggleTrace => {
            toggle_tracing(scene, params);
        },
        Command::ClearTrace => {
            scene.clear_trace();
        },
    }
}

} // verus!
