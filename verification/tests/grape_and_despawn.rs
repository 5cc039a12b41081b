use joyride::decimator::DespawnArea;
use joyride::grape::{GrapeSpawn, GrapeSpawnPlan, Grapes};

#[test]
fn grape_spawn_plans() {
    let none = GrapeSpawn::new();
    assert!(!none.has_grape_scene);
    assert_eq!(none.spawn_grapes(false), GrapeSpawnPlan::NoScene);
    assert_eq!(none.spawn_grapes(true), GrapeSpawnPlan::PlayerDead);
    let some = GrapeSpawn { has_grape_scene: true };
    assert_eq!(some.spawn_grapes(false), GrapeSpawnPlan::Spawn);
    assert_eq!(some.spawn_grapes(true), GrapeSpawnPlan::PlayerDead);
}

#[test]
fn grapes_picked_by_player_only() {
    let mut g = Grapes::new();
    assert!(g.is_visible);
    assert!(!g.on_body_entered(false, false));
    assert!(g.is_visible);
    assert!(g.on_body_entered(false, true));
    assert!(!g.is_visible);
    let mut h = Grapes::new();
    assert!(h.on_body_entered(true, false));
    assert!(!h.is_visible);
}

#[test]
fn despawn_obstacles_and_tokens() {
    assert!(DespawnArea::destroy_entity(true, false));
    assert!(DespawnArea::destroy_entity(false, true));
    assert!(DespawnArea::destroy_entity(true, true));
    assert!(!DespawnArea::destroy_entity(false, false));
}

#[test]
fn grapes_are_collected_at_most_once() {
    let mut g = Grapes::new();
    assert!(g.on_body_entered(true, true));
    assert!(!g.is_visible);
    assert!(!g.on_body_entered(true, true));
    assert!(!g.on_body_entered(false, true));
    assert!(!g.is_visible);
}
