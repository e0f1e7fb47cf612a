//! The tuning surface of the external constraint integrator.
//!
//! These knobs belong to the simulation service, not to the lifecycle core;
//! the settings surface only clamps edits into the advertised slider ranges
//! and hands the values through. Fractional knobs are carried in thousandths,
//! like every other scalar here.

use vstd::prelude::*;
use crate::params::spec_clamp;
use crate::params::clamp_i64;

verus! {

/// Fewest integration or constraint substeps per tick.
pub const SUBSTEPS_MIN: i64 = 1;
/// Most integration or constraint substeps per tick.
pub const SUBSTEPS_MAX: i64 = 32;
/// Largest Baumgarte stabilization constant, in thousandths.
pub const BAUMGARTE_MILLI_MAX: i64 = 100;
/// Smallest slow-motion coefficient, in thousandths (real time).
pub const SLOW_MOTION_MILLI_MIN: i64 = 1_000;
/// Largest slow-motion coefficient, in thousandths.
pub const SLOW_MOTION_MILLI_MAX: i64 = 16_000;

/// Global tuning of the external integrator, as the settings surface edits
/// it.
#[derive(Clone, Copy, Debug)]
pub struct SolverTuning {
    pub integration_substeps: i64,
    pub constraints_substeps: i64,
    pub baumgarte_milli: i64,
    pub slow_motion_milli: i64,
}

impl SolverTuning {
    /// Every knob within its slider range.
    pub open spec fn valid(self) -> bool {
        &&& SUBSTEPS_MIN <= self.integration_substeps <= SUBSTEPS_MAX
        &&& SUBSTEPS_MIN <= self.constraints_substeps <= SUBSTEPS_MAX
        &&& 0 <= self.baumgarte_milli <= BAUMGARTE_MILLI_MAX
        &&& SLOW_MOTION_MILLI_MIN <= self.slow_motion_milli <= SLOW_MOTION_MILLI_MAX
    }

    /// Take over the integrator's current values, clamped into the slider
    /// ranges.
    pub fn new(
        integration_substeps: i64,
        constraints_substeps: i64,
        baumgarte_milli: i64,
        slow_motion_milli: i64,
    ) -> (r: SolverTuning)
        ensures
            r.integration_substeps == spec_clamp(
                integration_substeps as int,
                SUBSTEPS_MIN as int,
                SUBSTEPS_MAX as int,
            ),
            r.constraints_substeps == spec_clamp(
                constraints_substeps as int,
                SUBSTEPS_MIN as int,
                SUBSTEPS_MAX as int,
            ),
            r.baumgarte_milli == spec_clamp(baumgarte_milli as int, 0, BAUMGARTE_MILLI_MAX as int),
            r.slow_motion_milli == spec_clamp(
                slow_motion_milli as int,
                SLOW_MOTION_MILLI_MIN as int,
                SLOW_MOTION_MILLI_MAX as int,
            ),
            r.valid(),
    {
        SolverTuning {
            integration_substeps: clamp_i64(integration_substeps, SUBSTEPS_MIN, SUBSTEPS_MAX),
            constraints_substeps: clamp_i64(constraints_substeps, SUBSTEPS_MIN, SUBSTEPS_MAX),
            baumgarte_milli: clamp_i64(baumgarte_milli, 0, BAUMGARTE_MILLI_MAX),
            slow_motion_milli: clamp_i64(
                slow_motion_milli,
                SLOW_MOTION_MILLI_MIN,
                SLOW_MOTION_MILLI_MAX,
            ),
        }
    }

    /// What application startup configures before the first restart: both
    /// substep counts at their maximum.
    pub fn configure_startup(&mut self)
        ensures
            final(self).integration_substeps == SUBSTEPS_MAX,
            final(self).constraints_substeps == SUBSTEPS_MAX,
            final(self).baumgarte_milli == old(self).baumgarte_milli,
            final(self).slow_motion_milli == old(self).slow_motion_milli,
    {
        self.integration_substeps = SUBSTEPS_MAX;
        self.constraints_substeps = SUBSTEPS_MAX;
    }

    pub fn set_integration_substeps(&mut self, v: i64)
        ensures
            final(self).integration_substeps == spec_clamp(
                v as int,
                SUBSTEPS_MIN as int,
                SUBSTEPS_MAX as int,
            ),
            *final(self) == (SolverTuning {
                integration_substeps: final(self).integration_substeps,
                ..*old(self)
            }),
    {
        self.integration_substeps = clamp_i64(v, SUBSTEPS_MIN, SUBSTEPS_MAX);
    }

    pub fn set_constraints_substeps(&mut self, v: i64)
        ensures
            final(self).constraints_substeps == spec_clamp(
                v as int,
                SUBSTEPS_MIN as int,
                SUBSTEPS_MAX as int,
            ),
            *final(self) == (SolverTuning {
                constraints_substeps: final(self).constraints_substeps,
                ..*old(self)
            }),
    {
        self.constraints_substeps = clamp_i64(v, SUBSTEPS_MIN, SUBSTEPS_MAX);
    }

    pub fn set_baumgarte_milli(&mut self, v: i64)
        ensures
            final(self).baumgarte_milli == spec_clamp(v as int, 0, BAUMGARTE_MILLI_MAX as int),
            *final(self) == (SolverTuning {
                baumgarte_milli: final(self).baumgarte_milli,
                ..*old(self)
            }),
    {
        self.baumgarte_milli = clamp_i64(v, 0, BAUMGARTE_MILLI_MAX);
    }

    pub fn set_slow_motion_milli(&mut self, v: i64)
        ensures
            final(self).slow_motion_milli == spec_clamp(
                v as int,
                SLOW_MOTION_MILLI_MIN as int,
                SLOW_MOTION_MILLI_MAX as int,
            ),
            *final(self) == (SolverTuning {
                slow_motion_milli: final(self).slow_motion_milli,
                ..*old(self)
            }),
    {
        self.slow_motion_milli = clamp_i64(v, SLOW_MOTION_MILLI_MIN, SLOW_MOTION_MILLI_MAX);
    }
}

} // verus!
