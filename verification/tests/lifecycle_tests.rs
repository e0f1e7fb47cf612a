use pulley_demo::command::{apply_command, Command};
use pulley_demo::params::SimulationParameters;
use pulley_demo::scene::{Role, Scene};
use pulley_demo::trace::{toggle_tracing, trace_tick};
use pulley_demo::vec3::Vec3Milli;

fn marker_count(scene: &Scene) -> usize {
    scene.entities.iter().filter(|e| matches!(e.role, Role::TraceMarker)).count()
}

#[test]
fn restart_builds_one_generation_of_six() {
    let mut scene = Scene::new();
    let params = SimulationParameters::default();
    scene.restart(&params);
    assert_eq!(scene.entities.len(), 6);
    assert_eq!(scene.generation, 1);
    assert!(scene.entities.iter().all(|e| e.generation == 1));
    // Side body A, side body B, central body, two cables, one decoration.
    assert!(matches!(scene.entities[0].role, Role::RigidBody { mass: 10_000 }));
    assert!(matches!(scene.entities[1].role, Role::RigidBody { mass: 10_000 }));
    assert!(matches!(scene.entities[2].role, Role::RigidBody { mass: 10_000 }));
    assert!(matches!(scene.entities[3].role, Role::Constraint { .. }));
    assert!(matches!(scene.entities[4].role, Role::Constraint { .. }));
    assert!(matches!(scene.entities[5].role, Role::StaticDecoration));
    // The traced body is the central one.
    assert_eq!(scene.traceable, Some(scene.entities[2].id));
    // Cables reference the already-created bodies.
    match scene.entities[3].role {
        Role::Constraint { body_a, body_b, length } => {
            assert_eq!(body_a, scene.entities[0].id);
            assert_eq!(body_b, scene.entities[2].id);
            assert_eq!(length, 15_000);
        }
        _ => unreachable!(),
    }
    match scene.entities[4].role {
        Role::Constraint { body_a, body_b, length } => {
            assert_eq!(body_a, scene.entities[1].id);
            assert_eq!(body_b, scene.entities[2].id);
            assert_eq!(length, 15_000);
        }
        _ => unreachable!(),
    }
    // Decoration marks the equilibrium point.
    assert_eq!(scene.entities[5].position, Vec3Milli { x: 0, y: -2_886, z: 0 });
}

#[test]
fn restart_is_idempotent_under_repetition() {
    let params = SimulationParameters::default();
    let mut once = Scene::new();
    once.restart(&params);
    let mut twice = Scene::new();
    twice.restart(&params);
    twice.restart(&params);
    assert_eq!(once.entities.len(), twice.entities.len());
    for (a, b) in once.entities.iter().zip(twice.entities.iter()) {
        assert_eq!(a.position, b.position);
        match (a.role, b.role) {
            (Role::RigidBody { mass: ma }, Role::RigidBody { mass: mb }) => assert_eq!(ma, mb),
            (Role::Constraint { length: la, .. }, Role::Constraint { length: lb, .. }) => {
                assert_eq!(la, lb)
            }
            (Role::TraceMarker, Role::TraceMarker) => {}
            (Role::StaticDecoration, Role::StaticDecoration) => {}
            _ => panic!("role kinds differ between generations"),
        }
    }
}

#[test]
fn restart_clears_previous_generation_entirely() {
    let mut scene = Scene::new();
    let params = SimulationParameters::default();
    scene.restart(&params);
    let old_ids: Vec<u64> = scene.entities.iter().map(|e| e.id).collect();
    scene.restart(&params);
    assert_eq!(scene.generation, 2);
    for e in &scene.entities {
        assert_eq!(e.generation, 2);
        assert!(!old_ids.contains(&e.id));
    }
    assert_eq!(scene.entities.len(), 6);
}

#[test]
fn restart_despawns_markers_too() {
    let mut scene = Scene::new();
    let mut params = SimulationParameters::default();
    scene.restart(&params);
    params.tracing_enabled = true;
    let pos = Some(Vec3Milli { x: 0, y: -7_886, z: 0 });
    trace_tick(&mut scene, &mut params, pos, 1, 2);
    trace_tick(&mut scene, &mut params, pos, 1, 2);
    assert_eq!(marker_count(&scene), 2);
    scene.restart(&params);
    assert_eq!(marker_count(&scene), 0);
    assert_eq!(scene.entities.len(), 6);
}

#[test]
fn three_stationary_ticks_give_three_markers_then_clear() {
    let mut scene = Scene::new();
    let mut params = SimulationParameters::default();
    scene.restart(&params);
    toggle_tracing(&mut scene, &mut params);
    assert!(params.tracing_enabled);
    let pos = Vec3Milli { x: 0, y: -7_886, z: 0 };
    for _ in 0..3 {
        trace_tick(&mut scene, &mut params, Some(pos), 7, 8);
    }
    assert_eq!(marker_count(&scene), 3);
    let markers: Vec<_> = scene
        .entities
        .iter()
        .filter(|e| matches!(e.role, Role::TraceMarker))
        .collect();
    assert!(markers.iter().all(|m| m.position == pos));
    scene.clear_trace();
    assert_eq!(marker_count(&scene), 0);
    assert_eq!(scene.entities.len(), 6);
}

#[test]
fn disabling_tracing_clears_all_markers() {
    let mut scene = Scene::new();
    let mut params = SimulationParameters::default();
    scene.restart(&params);
    toggle_tracing(&mut scene, &mut params);
    let pos = Vec3Milli { x: 10, y: -20, z: 30 };
    for _ in 0..5 {
        trace_tick(&mut scene, &mut params, Some(pos), 7, 8);
    }
    assert_eq!(marker_count(&scene), 5);
    // Tracing -> Idle: the markers are removed at once, nothing else is.
    toggle_tracing(&mut scene, &mut params);
    assert!(!params.tracing_enabled);
    assert_eq!(marker_count(&scene), 0);
    assert_eq!(scene.entities.len(), 6);
}

#[test]
fn enabling_tracing_touches_no_entity() {
    let mut scene = Scene::new();
    let mut params = SimulationParameters::default();
    scene.restart(&params);
    let before: Vec<_> = scene.entities.clone();
    toggle_tracing(&mut scene, &mut params);
    assert!(params.tracing_enabled);
    assert_eq!(scene.entities, before);
}

#[test]
fn tick_without_tracing_spawns_nothing_but_creates_assets() {
    let mut scene = Scene::new();
    let mut params = SimulationParameters::default();
    scene.restart(&params);
    assert_eq!(params.trace_mesh, None);
    trace_tick(&mut scene, &mut params, Some(Vec3Milli { x: 0, y: 0, z: 0 }), 41, 42);
    assert_eq!(scene.entities.len(), 6);
    assert_eq!(params.trace_mesh, Some(41));
    assert_eq!(params.trace_material, Some(42));
}

#[test]
fn trace_assets_are_created_once_and_shared() {
    let mut params = SimulationParameters::default();
    params.ensure_trace_assets(1, 2);
    assert_eq!(params.trace_mesh, Some(1));
    assert_eq!(params.trace_material, Some(2));
    // A later tick offers fresh candidates; the stored handles stay.
    params.ensure_trace_assets(3, 4);
    assert_eq!(params.trace_mesh, Some(1));
    assert_eq!(params.trace_material, Some(2));
}

#[test]
fn despawn_on_empty_scene_is_a_no_op() {
    let mut scene = Scene::new();
    scene.despawn_all();
    assert_eq!(scene.entities.len(), 0);
    assert_eq!(scene.generation, 0);
    scene.despawn_all();
    assert_eq!(scene.entities.len(), 0);
}

#[test]
fn commands_dispatch_to_the_right_handlers() {
    let mut scene = Scene::new();
    let mut params = SimulationParameters::default();
    apply_command(&mut scene, &mut params, Command::Restart);
    assert_eq!(scene.entities.len(), 6);
    apply_command(&mut scene, &mut params, Command::ToggleTrace);
    assert!(params.tracing_enabled);
    let pos = Vec3Milli { x: 1, y: 2, z: 3 };
    trace_tick(&mut scene, &mut params, Some(pos), 7, 8);
    assert_eq!(marker_count(&scene), 1);
    apply_command(&mut scene, &mut params, Command::ClearTrace);
    assert_eq!(marker_count(&scene), 0);
    assert_eq!(scene.entities.len(), 6);
}
