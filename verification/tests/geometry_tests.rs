use pulley_demo::geometry::solve;
use pulley_demo::math::isqrt;
use pulley_demo::params::SimulationParameters;
use pulley_demo::vec3::{distance_between, Vec3Milli};

fn params(span_length: i64, initial_offset: i64) -> SimulationParameters {
    let mut p = SimulationParameters::default();
    p.span_length = span_length;
    p.initial_offset = initial_offset;
    p
}

#[test]
fn isqrt_small_values() {
    assert_eq!(isqrt(0), 0);
    assert_eq!(isqrt(1), 1);
    assert_eq!(isqrt(3), 1);
    assert_eq!(isqrt(4), 2);
    assert_eq!(isqrt(8_333_333), 2886);
    assert_eq!(isqrt(87_188_996), 9337);
}

#[test]
fn example_configuration_ten_by_minus_five() {
    // L = 10 units, x0 = -5 units: equilibrium y is -5/sqrt(3), about -2.887
    // units; the central body spawns a further 5 units below; the cable is 15
    // units; the pulleys sit at x = -5 and x = +5.
    let cfg = solve(&params(10_000, -5_000));
    assert_eq!(cfg.pulley1, Vec3Milli { x: -5_000, y: 0, z: 0 });
    assert_eq!(cfg.pulley2, Vec3Milli { x: 5_000, y: 0, z: 0 });
    assert_eq!(cfg.constraint_length, 15_000);
    assert_eq!(cfg.equilibrium, Vec3Milli { x: 0, y: -2_886, z: 0 });
    assert_eq!(cfg.central, Vec3Milli { x: 0, y: -7_886, z: 0 });
    assert_eq!(cfg.side_a, Vec3Milli { x: -5_000, y: -5_663, z: 0 });
    assert_eq!(cfg.side_b, Vec3Milli { x: 5_000, y: -5_663, z: 0 });
}

#[test]
fn cable_invariant_across_parameter_grid() {
    // distance(pulley, central) + vertical drop == constraint length, on both
    // sides, for a sweep of admissible parameters.
    for span in [5_000i64, 7_500, 10_000, 13_000, 20_000] {
        for offset in [-span, -span / 2, -1, 0, 1, span / 3, span] {
            let cfg = solve(&params(span, offset));
            let d1 = distance_between(cfg.pulley1, cfg.central);
            let d2 = distance_between(cfg.pulley2, cfg.central);
            let drop1 = cfg.pulley1.y - cfg.side_a.y;
            let drop2 = cfg.pulley2.y - cfg.side_b.y;
            assert_eq!(d1 + drop1, cfg.constraint_length);
            assert_eq!(d2 + drop2, cfg.constraint_length);
            assert_eq!(d1, d2);
        }
    }
}

#[test]
fn pulleys_symmetric_about_origin() {
    for span in [5_000i64, 9_999, 12_345, 20_000] {
        let cfg = solve(&params(span, 0));
        assert_eq!(cfg.pulley1.x, -cfg.pulley2.x);
        assert_eq!(cfg.pulley2.x, span / 2);
        assert_eq!(cfg.pulley1.y, 0);
        assert_eq!(cfg.pulley2.y, 0);
        assert_eq!(cfg.pulley1.z, 0);
        assert_eq!(cfg.pulley2.z, 0);
    }
}

#[test]
fn extreme_offset_places_side_bodies_above_pulleys() {
    // Far beyond the UI range the computed drop goes negative and the solver
    // still returns the arithmetic result as-is: the side bodies end up above
    // their pulleys. This boundary behaviour is accepted, not rejected.
    let cfg = solve(&params(5_000, -500_000));
    assert_eq!(cfg.constraint_length, 7_500);
    assert_eq!(cfg.central.y, -501_443);
    assert_eq!(cfg.side_a.y, 493_949);
    assert_eq!(cfg.side_b.y, 493_949);
    assert!(cfg.side_a.y > cfg.pulley1.y);
    // The invariant itself still holds by construction.
    let d1 = distance_between(cfg.pulley1, cfg.central);
    assert_eq!(d1 + (cfg.pulley1.y - cfg.side_a.y), cfg.constraint_length);
}

#[test]
fn solver_is_deterministic() {
    let a = solve(&params(13_000, -4_321));
    let b = solve(&params(13_000, -4_321));
    assert_eq!(a, b);
}
