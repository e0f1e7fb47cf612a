//! Closed-form placement of the pulley mechanism.
//!
//! From the five scalar parameters the solver places the two pulley anchors
//! symmetrically about the origin, puts the central body below their midpoint
//! at the equilibrium depth of the two-cable triangle displaced by the user's
//! initial offset, fixes the shared cable length at three half-spans, and
//! hangs each side body below its pulley by exactly the cable length left
//! over after the stretch from pulley to central body. The cable-length
//! invariant therefore holds by construction, not by iterative solving.

use vstd::prelude::*;
use crate::math::{isqrt, sqrt_floor, lemma_sqrt_floor_bounds};
use crate::params::SimulationParameters;
use crate::vec3::{distance_between, dist_sq, spec_distance, Vec3Milli};

verus! {

/// Largest span length the solver accepts, in milli-units.
pub const SOLVER_SPAN_MAX: i64 = 500_000;
/// Largest offset magnitude the solver accepts, in milli-units.
pub const SOLVER_OFFSET_MAX: i64 = 500_000;

/// The placements and the shared cable length of one scene generation.
#[derive(PartialEq, Eq, Structural, Clone, Copy, Debug)]
pub struct GeometryConfiguration {
    pub pulley1: Vec3Milli,
    pub pulley2: Vec3Milli,
    pub central: Vec3Milli,
    pub side_a: Vec3Milli,
    pub side_b: Vec3Milli,
    pub equilibrium: Vec3Milli,
    pub constraint_length: i64,
}

/// The numeric domain of the solver: wide enough that every arithmetic step
/// fits its machine type. The solver is total here; it performs no range
/// validation of its own, so offsets far beyond the UI ranges are placed
/// as-is (a side body may then end up above its pulley).
pub open spec fn solver_domain(p: SimulationParameters) -> bool {
    &&& 0 < p.span_length <= SOLVER_SPAN_MAX
    &&& -SOLVER_OFFSET_MAX <= p.initial_offset <= SOLVER_OFFSET_MAX
}

/// What the solver returns, as a function of the parameters alone.
pub open spec fn spec_solve(p: SimulationParameters) -> GeometryConfiguration {
    let half = p.span_length as int / 2;
    let depth = sqrt_floor((half * half / 3) as nat) as int;
    let pulley1 = Vec3Milli { x: (-half) as i64, y: 0 as i64, z: 0 as i64 };
    let pulley2 = Vec3Milli { x: half as i64, y: 0 as i64, z: 0 as i64 };
    let central = Vec3Milli { x: 0 as i64, y: (p.initial_offset - depth) as i64, z: 0 as i64 };
    let equilibrium = Vec3Milli { x: 0 as i64, y: (-depth) as i64, z: 0 as i64 };
    let cable = 3 * half;
    let drop = cable - spec_distance(pulley1, central);
    GeometryConfiguration {
        pulley1,
        pulley2,
        central,
        side_a: Vec3Milli { x: (-half) as i64, y: (-drop) as i64, z: 0 as i64 },
        side_b: Vec3Milli { x: half as i64, y: (-drop) as i64, z: 0 as i64 },
        equilibrium,
        constraint_length: cable as i64,
    }
}

/// Whether the current values lie in the solver's numeric domain.
pub fn in_solver_domain(p: &SimulationParameters) -> (b: bool)
    ensures
        b == solver_domain(*p),
{
    0 < p.span_length && p.span_length <= SOLVER_SPAN_MAX && -SOLVER_OFFSET_MAX <= p.initial_offset
        && p.initial_offset <= SOLVER_OFFSET_MAX
}

/// The UI ranges lie inside the solver's numeric domain.
pub proof fn lemma_valid_in_solver_domain(p: SimulationParameters)
    requires
        p.valid(),
    ensures
        solver_domain(p),
{
}

/// The pulley anchors always sit symmetrically about the vertical axis, each
/// a half-span from the origin at height zero.
pub proof fn lemma_pulleys_symmetric(p: SimulationParameters)
    requires
        solver_domain(p),
    ensures
        spec_solve(p).pulley1.x == -spec_solve(p).pulley2.x,
        spec_solve(p).pulley1.x == -(p.span_length as int / 2),
        spec_solve(p).pulley2.x == p.span_length as int / 2,
        spec_solve(p).pulley1.y == 0 && spec_solve(p).pulley1.z == 0,
        spec_solve(p).pulley2.y == 0 && spec_solve(p).pulley2.z == 0,
{
}

/// The central body spawns at the equilibrium point of the two-cable
/// triangle displaced vertically by the user's initial offset, on the axis
/// midway between the pulleys; and the shared cable length is fixed at three
/// half-spans.
pub proof fn lemma_central_spawn_offset(p: SimulationParameters)
    requires
        solver_domain(p),
    ensures
        spec_solve(p).central.x == 0 && spec_solve(p).central.z == 0,
        spec_solve(p).central.y == spec_solve(p).equilibrium.y + p.initial_offset,
        spec_solve(p).constraint_length == 3 * (p.span_length as int / 2),
{
    let half = p.span_length as int / 2;
    let depth = sqrt_floor((half * half / 3) as nat) as int;
    assert(0 <= half * half <= 62_500_000_000) by (nonlinear_arith)
        requires 0 <= half <= 250_000;
    lemma_sqrt_floor_bounds((half * half / 3) as nat);
    assert(depth <= 144_337) by (nonlinear_arith)
        requires depth * depth <= 20_833_333_333 && depth >= 0;
}

/// The cable-length invariant: on each side, the stretch from the pulley to
/// the central body plus that side body's vertical drop below its pulley is
/// exactly the shared constraint length. It holds for every parameter set in
/// the declared UI ranges, by construction of the placement.
pub proof fn lemma_cable_length_invariant(p: SimulationParameters)
    requires
        p.valid(),
    ensures
        ({
            let cfg = spec_solve(p);
            &&& spec_distance(cfg.pulley1, cfg.central) + (cfg.pulley1.y - cfg.side_a.y)
                == cfg.constraint_length
            &&& spec_distance(cfg.pulley2, cfg.central) + (cfg.pulley2.y - cfg.side_b.y)
                == cfg.constraint_length
        }),
{
    lemma_valid_in_solver_domain(p);
    let cfg = spec_solve(p);
    let half = p.span_length as int / 2;
    let depth = sqrt_floor((half * half / 3) as nat) as int;
    let cy = p.initial_offset - depth;
    assert(0 <= half * half <= 62_500_000_000) by (nonlinear_arith)
        requires 0 <= half <= 250_000;
    lemma_sqrt_floor_bounds((half * half / 3) as nat);
    assert(depth <= 144_337) by (nonlinear_arith)
        requires depth * depth <= 20_833_333_333 && depth >= 0;
    assert(cfg.central.y == cy);
    assert(dist_sq(cfg.pulley1, cfg.central) == half * half + cy * cy) by (nonlinear_arith)
        requires
            cfg.pulley1.x == -half && cfg.pulley1.y == 0 && cfg.pulley1.z == 0,
            cfg.central.x == 0 && cfg.central.y == cy && cfg.central.z == 0,
            dist_sq(cfg.pulley1, cfg.central) == (cfg.central.x - cfg.pulley1.x) * (cfg.central.x
                - cfg.pulley1.x) + (cfg.central.y - cfg.pulley1.y) * (cfg.central.y
                - cfg.pulley1.y) + (cfg.central.z - cfg.pulley1.z) * (cfg.central.z
                - cfg.pulley1.z);
    assert(dist_sq(cfg.pulley2, cfg.central) == half * half + cy * cy) by (nonlinear_arith)
        requires
            cfg.pulley2.x == half && cfg.pulley2.y == 0 && cfg.pulley2.z == 0,
            cfg.central.x == 0 && cfg.central.y == cy && cfg.central.z == 0,
            dist_sq(cfg.pulley2, cfg.central) == (cfg.central.x - cfg.pulley2.x) * (cfg.central.x
                - cfg.pulley2.x) + (cfg.central.y - cfg.pulley2.y) * (cfg.central.y
                - cfg.pulley2.y) + (cfg.central.z - cfg.pulley2.z) * (cfg.central.z
                - cfg.pulley2.z);
    let d = spec_distance(cfg.pulley1, cfg.central);
    assert(spec_distance(cfg.pulley2, cfg.central) == d);
    assert(0 <= cy * cy <= 500_000_000_000) by (nonlinear_arith)
        requires -644_337 <= cy <= 644_337;
    let n = dist_sq(cfg.pulley1, cfg.central);
    assert(0 <= n <= 562_500_000_000);
    lemma_sqrt_floor_bounds(n as nat);
    assert(d * d <= n);
    assert(d <= 750_000) by (nonlinear_arith)
        requires 0 <= d && d * d <= 562_500_000_000;
    assert(cfg.side_a.y == -(3 * half - d));
    assert(cfg.side_b.y == -(3 * half - d));
}

/// Place all bodies, anchors and the cable for the given parameters.
pub fn solve(p: &SimulationParameters) -> (r: GeometryConfiguration)
    requires
        solver_domain(*p),
    ensures
        r == spec_solve(*p),
{
    let half: i64 = p.span_length / 2;
    proof {
        assert(0 <= half * half <= 62_500_000_000) by (nonlinear_arith)
            requires 0 <= half <= 250_000;
    }
    let depth: i64 = isqrt(half * half / 3);
    proof {
        lemma_sqrt_floor_bounds((half * half / 3) as nat);
        assert(depth <= 144_337) by (nonlinear_arith)
            requires depth * depth <= 20_833_333_333 && depth >= 0;
    }
    let central_y: i64 = p.initial_offset - depth;
    let pulley1 = Vec3Milli::new(-half, 0, 0);
    let pulley2 = Vec3Milli::new(half, 0, 0);
    let central = Vec3Milli::new(0, central_y, 0);
    let equilibrium = Vec3Milli::new(0, -depth, 0);
    let cable: i64 = 3 * half;
    let d: i64 = distance_between(pulley1, central);
    let drop: i64 = cable - d;
    GeometryConfiguration {
        pulley1,
        pulley2,
        central,
        side_a: Vec3Milli::new(-half, -drop, 0),
        side_b: Vec3Milli::new(half, -drop, 0),
        equilibrium,
        constraint_length: cable,
    }
}

} // verus!
