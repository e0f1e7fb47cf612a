use pulley_demo::params::SimulationParameters;
use pulley_demo::tuning::SolverTuning;

#[test]
fn default_parameters_match_the_demonstration() {
    let p = SimulationParameters::default();
    assert_eq!(p.mass_side_a, 10_000);
    assert_eq!(p.mass_side_b, 10_000);
    assert_eq!(p.mass_central, 10_000);
    assert_eq!(p.span_length, 10_000);
    assert_eq!(p.initial_offset, -5_000);
    assert!(!p.tracing_enabled);
    assert_eq!(p.trace_mesh, None);
    assert_eq!(p.trace_material, None);
    assert!(p.is_valid());
}

#[test]
fn mass_edits_clamp_to_the_slider_range() {
    let mut p = SimulationParameters::default();
    p.set_mass_side_a(0);
    assert_eq!(p.mass_side_a, 5_000);
    p.set_mass_side_b(1_000_000);
    assert_eq!(p.mass_side_b, 100_000);
    p.set_mass_central(42_000);
    assert_eq!(p.mass_central, 42_000);
    assert!(p.is_valid());
}

#[test]
fn span_edits_clamp_to_the_slider_range() {
    let mut p = SimulationParameters::default();
    p.set_span_length(1);
    assert_eq!(p.span_length, 5_000);
    p.set_span_length(99_999);
    assert_eq!(p.span_length, 20_000);
    p.set_span_length(12_345);
    assert_eq!(p.span_length, 12_345);
}

#[test]
fn offset_edits_clamp_to_the_current_span() {
    let mut p = SimulationParameters::default();
    p.set_initial_offset(-999_999);
    assert_eq!(p.initial_offset, -10_000);
    p.set_initial_offset(999_999);
    assert_eq!(p.initial_offset, 10_000);
    p.set_initial_offset(-5_000);
    assert_eq!(p.initial_offset, -5_000);
    assert!(p.is_valid());
}

#[test]
fn tuning_edits_clamp_to_their_slider_ranges() {
    let mut t = SolverTuning::new(64, 0, 500, 0);
    assert_eq!(t.integration_substeps, 32);
    assert_eq!(t.constraints_substeps, 1);
    assert_eq!(t.baumgarte_milli, 100);
    assert_eq!(t.slow_motion_milli, 1_000);
    t.set_integration_substeps(16);
    t.set_constraints_substeps(99);
    t.set_baumgarte_milli(-5);
    t.set_slow_motion_milli(20_000);
    assert_eq!(t.integration_substeps, 16);
    assert_eq!(t.constraints_substeps, 32);
    assert_eq!(t.baumgarte_milli, 0);
    assert_eq!(t.slow_motion_milli, 16_000);
}

#[test]
fn startup_configures_full_substepping() {
    let mut t = SolverTuning::new(8, 8, 50, 1_000);
    t.configure_startup();
    assert_eq!(t.integration_substeps, 32);
    assert_eq!(t.constraints_substeps, 32);
    assert_eq!(t.baumgarte_milli, 50);
    assert_eq!(t.slow_motion_milli, 1_000);
}
