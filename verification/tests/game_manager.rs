use joyride::game_manager::{
    Command, GameEvent, GameManager, GameState, SaveData, Scene, DEFAULT_MUSIC_VOLUME_BITS,
};

fn playing(score: i32, high: i32) -> GameManager {
    GameManager {
        current_game_state: GameState::PlayState,
        current_score: score,
        high_score: high,
        is_tracking_score: true,
        grapes: 3,
        music_volume_bits: DEFAULT_MUSIC_VOLUME_BITS,
    }
}

#[test]
fn new_manager_starts_on_title_with_defaults() {
    let gm = GameManager::new();
    assert_eq!(gm.current_game_state, GameState::TitleState);
    assert_eq!(gm.current_score, 0);
    assert_eq!(gm.high_score, 0);
    assert!(!gm.is_tracking_score);
    assert_eq!(gm.grapes, 0);
    assert_eq!(f32::from_bits(gm.music_volume_bits), 0.25f32);
}

#[test]
fn ready_resets_score_and_tracks() {
    let mut gm = playing(12, 20);
    gm.is_tracking_score = false;
    let cmds = gm.ready();
    assert_eq!(cmds, vec![Command::ResetScoreRemainder]);
    assert_eq!(gm.current_score, 0);
    assert!(gm.is_tracking_score);
    assert_eq!(gm.high_score, 20);
}

#[test]
fn play_from_title_starts_new_game() {
    let mut gm = GameManager::new();
    gm.current_score = 9;
    gm.high_score = 15;
    let cmds = gm.change_to_play_state();
    assert_eq!(
        cmds,
        vec![
            Command::ResetScoreRemainder,
            Command::PlayGameMusic,
            Command::ChangeScene(Scene::Game)
        ]
    );
    assert_eq!(gm.current_game_state, GameState::PlayState);
    assert_eq!(gm.current_score, 0);
    assert_eq!(gm.high_score, 15);
    assert!(gm.is_tracking_score);
}

#[test]
fn frame_adds_points_and_shows_previous_high_score() {
    let mut gm = playing(8, 10);
    let cmds = gm.process(false, 5);
    assert_eq!(gm.current_score, 13);
    assert_eq!(gm.high_score, 13);
    assert_eq!(
        cmds,
        vec![Command::UpdateScoreUi { score: 13, high_score: 10, grapes: 3 }]
    );
}

#[test]
fn frame_below_high_score_keeps_it() {
    let mut gm = playing(2, 10);
    let cmds = gm.process(false, 1);
    assert_eq!(gm.current_score, 3);
    assert_eq!(gm.high_score, 10);
    assert_eq!(cmds, vec![Command::UpdateScoreUi { score: 3, high_score: 10, grapes: 3 }]);
}

#[test]
fn frames_without_tracking_change_nothing() {
    let mut gm = playing(4, 10);
    gm.is_tracking_score = false;
    let before = gm;
    assert!(gm.process(false, 7).is_empty());
    assert_eq!(gm, before);
    let mut paused = playing(4, 10);
    paused.current_game_state = GameState::PauseState;
    let before = paused;
    assert!(paused.process(false, 7).is_empty());
    assert_eq!(paused, before);
}

#[test]
fn menu_key_on_title_does_nothing() {
    let mut gm = GameManager::new();
    let before = gm;
    assert!(gm.process(true, 0).is_empty());
    assert_eq!(gm, before);
}

#[test]
fn menu_key_pauses_then_resumes_same_game() {
    let mut gm = playing(42, 50);
    let before = gm;
    let pause = gm.process(true, 0);
    assert_eq!(
        pause,
        vec![Command::PlayMenuMusic, Command::SetTreePaused(true), Command::ShowPauseOverlay]
    );
    assert_eq!(gm.current_game_state, GameState::PauseState);
    assert!(!gm.is_tracking_score);
    let resume = gm.process(true, 0);
    assert_eq!(
        resume,
        vec![Command::SetTreePaused(false), Command::FreePauseOverlay, Command::PlayGameMusic]
    );
    assert_eq!(gm, before);
}

#[test]
fn change_to_play_from_pause_resumes() {
    let mut gm = playing(42, 50);
    gm.switch_gamestate(GameState::PauseState);
    let cmds = gm.change_to_play_state();
    assert_eq!(
        cmds,
        vec![Command::SetTreePaused(false), Command::FreePauseOverlay, Command::PlayGameMusic]
    );
    assert_eq!(gm.current_score, 42);
}

#[test]
fn title_keeps_best_score_and_saves() {
    let mut gm = playing(70, 50);
    let cmds = gm.change_to_menu_state();
    assert_eq!(
        cmds,
        vec![
            Command::SaveGame,
            Command::PlayMenuMusic,
            Command::ChangeScene(Scene::MainMenu)
        ]
    );
    assert_eq!(gm.high_score, 70);
    assert!(!gm.is_tracking_score);
    assert_eq!(gm.current_game_state, GameState::TitleState);
    let mut lower = playing(30, 50);
    lower.change_to_menu_state();
    assert_eq!(lower.high_score, 50);
}

#[test]
fn player_dead_state_changes_state_only() {
    let mut gm = playing(5, 9);
    let cmds = gm.switch_gamestate(GameState::_PlayerDead);
    assert!(cmds.is_empty());
    assert_eq!(gm.current_game_state, GameState::_PlayerDead);
    assert!(gm.is_tracking_score);
    assert!(gm.process(false, 4).is_empty());
    assert_eq!(gm.current_score, 5);
}

#[test]
fn start_and_stop_score_tracking() {
    let mut gm = playing(11, 10);
    gm.is_tracking_score = false;
    gm.start_score_tracking();
    assert!(gm.is_tracking_score);
    let cmds = gm.stop_score_tracking();
    assert_eq!(cmds, vec![Command::SaveGame]);
    assert_eq!(gm.high_score, 11);
    assert!(!gm.is_tracking_score);
}

#[test]
fn music_volume_is_applied_and_saved() {
    let mut gm = GameManager::new();
    let cmds = gm.set_music_volume(0.5f32.to_bits());
    assert_eq!(cmds, vec![Command::ApplyVolume, Command::SaveGame]);
    assert_eq!(f32::from_bits(gm.music_volume_bits), 0.5);
}

#[test]
fn grapes_are_added_and_shown() {
    let mut gm = playing(6, 8);
    let cmds = gm.add_grapes(1);
    assert_eq!(gm.grapes, 4);
    assert_eq!(cmds, vec![Command::UpdateScoreUi { score: 6, high_score: 8, grapes: 4 }]);
}

#[test]
fn load_gives_back_what_was_saved() {
    let saved = playing(1, 321);
    let data = saved.save_data();
    assert_eq!(
        data,
        SaveData { high_score: 321, grapes: 3, music_volume_bits: DEFAULT_MUSIC_VOLUME_BITS }
    );
    let mut other = GameManager::new();
    assert!(other.load_game(Some(data)));
    assert_eq!(other.save_data(), data);
    assert_eq!(other.current_game_state, GameState::TitleState);
    assert_eq!(other.current_score, 0);
}

#[test]
fn failed_load_changes_nothing() {
    let mut gm = playing(1, 2);
    let before = gm;
    assert!(!gm.load_game(None));
    assert_eq!(gm, before);
}

#[test]
fn handle_dispatches_events() {
    let mut gm = GameManager::new();
    assert_eq!(gm.handle(GameEvent::Ready), vec![Command::ResetScoreRemainder]);
    gm.handle(GameEvent::ChangeToPlayState);
    gm.handle(GameEvent::Process { menu_pressed: false, added_score: 3 });
    gm.handle(GameEvent::AddGrapes(2));
    assert_eq!(gm.current_score, 3);
    assert_eq!(gm.grapes, 2);
    let cmds = gm.handle(GameEvent::StopScoreTracking);
    assert_eq!(cmds, vec![Command::SaveGame]);
    assert_eq!(gm.high_score, 3);
    gm.handle(GameEvent::StartScoreTracking);
    assert!(gm.is_tracking_score);
    gm.handle(GameEvent::SetMusicVolume(0));
    assert_eq!(gm.music_volume_bits, 0);
    gm.handle(GameEvent::SwitchGameState(GameState::PauseState));
    assert_eq!(gm.current_game_state, GameState::PauseState);
    gm.handle(GameEvent::ChangeToMenuState);
    assert_eq!(gm.current_game_state, GameState::TitleState);
}

#[test]
fn high_score_never_decreases_along_a_run() {
    let mut gm = GameManager::new();
    let events = [
        GameEvent::Ready,
        GameEvent::ChangeToPlayState,
        GameEvent::Process { menu_pressed: false, added_score: 5 },
        GameEvent::Process { menu_pressed: false, added_score: 2 },
        GameEvent::Process { menu_pressed: true, added_score: 0 },
        GameEvent::Process { menu_pressed: true, added_score: 0 },
        GameEvent::ChangeToMenuState,
        GameEvent::ChangeToPlayState,
        GameEvent::Process { menu_pressed: false, added_score: 1 },
        GameEvent::StopScoreTracking,
    ];
    let mut high = gm.high_score;
    for e in events {
        gm.handle(e);
        assert!(gm.high_score >= high);
        assert!(gm.high_score >= gm.current_score);
        assert!(gm.high_score >= 0);
        high = gm.high_score;
    }
    assert_eq!(gm.high_score, 7);
    assert_eq!(gm.current_score, 1);
}
