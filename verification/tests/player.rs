use joyride::player::{AnimationState, Player, PlayerFrame};

#[test]
fn animation_priorities() {
    assert_eq!(Player::choose_animation(true, true, false, true), AnimationState::Die);
    assert_eq!(Player::choose_animation(false, true, true, false), AnimationState::Fly);
    assert_eq!(Player::choose_animation(false, false, false, true), AnimationState::Fall);
    assert_eq!(Player::choose_animation(false, false, true, true), AnimationState::Land);
    assert_eq!(Player::choose_animation(false, false, true, false), AnimationState::Walk);
}

#[test]
fn animation_names() {
    assert_eq!(Player::animation_name(AnimationState::Die), "die");
    assert_eq!(Player::animation_name(AnimationState::Fly), "fly");
    assert_eq!(Player::animation_name(AnimationState::Fall), "fall");
    assert_eq!(Player::animation_name(AnimationState::Land), "land");
    assert_eq!(Player::animation_name(AnimationState::Walk), "walk");
}

#[test]
fn frame_remembers_flying_and_lands() {
    let mut p = Player::new();
    let f = p.physics_process(true, false, false, true);
    assert_eq!(f, PlayerFrame { animation: AnimationState::Fly, report_game_over: false });
    assert!(p.was_flying);
    let f = p.physics_process(false, true, false, true);
    assert_eq!(f.animation, AnimationState::Land);
    assert!(!p.was_flying);
    let f = p.physics_process(false, true, false, true);
    assert_eq!(f.animation, AnimationState::Walk);
}

#[test]
fn collision_kills_and_reports_once() {
    let mut p = Player::new();
    let f = p.physics_process(false, false, true, true);
    assert_eq!(f, PlayerFrame { animation: AnimationState::Fall, report_game_over: true });
    assert!(p.is_dead);
    let f = p.physics_process(true, false, true, true);
    assert_eq!(f, PlayerFrame { animation: AnimationState::Die, report_game_over: false });
    assert!(p.is_dead);
    assert!(!p.player_died(true));
}

#[test]
fn death_needs_the_game_manager() {
    let mut p = Player::new();
    assert!(!p.player_died(false));
    assert!(!p.is_dead);
    assert!(p.player_died(true));
    assert!(p.is_dead);
}

#[test]
fn obstacle_area_kills_only_player_group() {
    let mut p = Player::new();
    assert!(!p.on_obstacles_entered(false, true));
    assert!(!p.is_dead);
    assert!(p.on_obstacles_entered(true, true));
    assert!(p.is_dead);
}

#[test]
fn ready_revives() {
    let mut p = Player { is_dead: true, was_flying: true };
    p.ready();
    assert_eq!(p, Player { is_dead: false, was_flying: false });
}
