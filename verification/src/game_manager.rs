//! The game manager: the game's state (playing, paused, title screen), the
//! score, the high score and the grape count, and the commands that each
//! transition asks the engine side to perform.
use vstd::prelude::*;

verus! {

/// The game's top-level state.
#[derive(Clone, Copy, Debug, PartialEq, Eq, Structural)]
pub enum GameState {
    PlayState,
    TitleState,
    PauseState,
    _PlayerDead,
}

/// A scene that the engine side can switch to.
#[derive(Clone, Copy, Debug, PartialEq, Eq, Structural)]
pub enum Scene {
    /// The game scene.
    Game,
    /// The main menu scene.
    MainMenu,
}

/// Work that a transition hands to the engine side, in the order given.
#[derive(Clone, Copy, Debug, PartialEq, Eq, Structural)]
pub enum Command {
    /// Freeze (`true`) or unfreeze (`false`) the scene tree's processing.
    SetTreePaused(bool),
    /// Instantiate the menu scene as an overlay on the current scene, with its
    /// background hidden, and remember it.
    ShowPauseOverlay,
    /// Free the remembered pause overlay, if there is one.
    FreePauseOverlay,
    /// Stop the game music, play the menu music unless it plays, apply the volume.
    PlayMenuMusic,
    /// Stop the menu music, play the game music unless it plays, apply the volume.
    PlayGameMusic,
    /// Load the given scene in place of the current one.
    ChangeScene(Scene),
    /// Write the save data (`GameManager::save_data`) to the save file.
    SaveGame,
    /// Set both music players' volume from the current music volume.
    ApplyVolume,
    /// Show these numbers in the score, high score and grape labels.
    UpdateScoreUi { score: i32, high_score: i32, grapes: i32 },
    /// Drop the fraction of a point accumulated towards the next whole point.
    ResetScoreRemainder,
}

/// What the save file holds. The music volume is a 32-bit float, carried
/// here as its bit pattern.
#[derive(Clone, Copy, Debug, PartialEq, Eq, Structural)]
pub struct SaveData {
    pub high_score: i32,
    pub grapes: i32,
    pub music_volume_bits: u32,
}

/// Bit pattern of the 32-bit float 0.25, the default music volume.
pub const DEFAULT_MUSIC_VOLUME_BITS: u32 = 0x3e80_0000;

/// The game manager's state.
#[derive(Clone, Copy, Debug, PartialEq, Eq, Structural)]
pub struct GameManager {
    pub current_game_state: GameState,
    pub current_score: i32,
    pub high_score: i32,
    pub is_tracking_score: bool,
    pub grapes: i32,
    /// Bit pattern of the 32-bit float music volume.
    pub music_volume_bits: u32,
}

/// An event that the game manager reacts to.
#[derive(Clone, Copy, Debug, PartialEq, Eq, Structural)]
pub enum GameEvent {
    /// The node entered the scene tree (after the save file was read).
    Ready,
    /// One frame: whether the menu key was just pressed, and the whole points
    /// that the frame's score accumulation produced.
    Process { menu_pressed: bool, added_score: i32 },
    SwitchGameState(GameState),
    ChangeToPlayState,
    ChangeToMenuState,
    StartScoreTracking,
    StopScoreTracking,
    /// A new music volume (bit pattern of the clamped 32-bit float).
    SetMusicVolume(u32),
    AddGrapes(i32),
}

/// Whether `x` fits in an `i32`.
pub open spec fn fits_i32(x: int) -> bool {
    i32::MIN <= x <= i32::MAX
}

impl GameManager {
    /// The larger of the high score and the current score.
    pub open spec fn best_score(self) -> i32 {
        if self.current_score >= self.high_score {
            self.current_score
        } else {
            self.high_score
        }
    }

    /// Whether frames add to the score: only while playing and tracking.
    pub open spec fn accumulates_score(self) -> bool {
        self.current_game_state == GameState::PlayState && self.is_tracking_score
    }

    /// Leaving the pause menu: unfreeze, drop the overlay, track, game music.
    pub open spec fn spec_resume_game(self) -> (Self, Seq<Command>) {
        (
            GameManager { is_tracking_score: true, ..self },
            seq![Command::SetTreePaused(false), Command::FreePauseOverlay, Command::PlayGameMusic],
        )
    }

    /// Entering the pause menu: stop tracking, menu music, freeze, overlay.
    pub open spec fn spec_pause_game(self) -> (Self, Seq<Command>) {
        (
            GameManager { is_tracking_score: false, ..self },
            seq![Command::PlayMenuMusic, Command::SetTreePaused(true), Command::ShowPauseOverlay],
        )
    }

    /// Stopping the score: the high score becomes the best score, tracking
    /// stops, the game is saved.
    pub open spec fn spec_stop_score_tracking(self) -> (Self, Seq<Command>) {
        (
            GameManager { high_score: self.best_score(), is_tracking_score: false, ..self },
            seq![Command::SaveGame],
        )
    }

    /// The transition to `new_state`.
    pub open spec fn spec_switch_gamestate(self, new_state: GameState) -> (Self, Seq<Command>) {
        let s = GameManager { current_game_state: new_state, ..self };
        match new_state {
            GameState::PlayState => {
                if self.current_game_state == GameState::PauseState {
                    s.spec_resume_game()
                } else {
                    (
                        GameManager { current_score: 0, is_tracking_score: true, ..s },
                        seq![
                            Command::ResetScoreRemainder,
                            Command::PlayGameMusic,
                            Command::ChangeScene(Scene::Game),
                        ],
                    )
                }
            },
            GameState::PauseState => s.spec_pause_game(),
            GameState::TitleState => {
                let (t, c) = s.spec_stop_score_tracking();
                (t, c + seq![Command::PlayMenuMusic, Command::ChangeScene(Scene::MainMenu)])
            },
            GameState::_PlayerDead => (s, seq![]),
        }
    }

    /// One frame. The menu key pauses a running game and resumes a paused
    /// one; otherwise, while the score accumulates, the frame's whole points
    /// are added, the labels updated (showing the high score from before the
    /// frame) and the high score raised to the score if it is exceeded.
    pub open spec fn spec_process(self, menu_pressed: bool, added_score: i32) -> (
        Self,
        Seq<Command>,
    ) {
        if menu_pressed {
            match self.current_game_state {
                GameState::PlayState => self.spec_switch_gamestate(GameState::PauseState),
                GameState::PauseState => self.spec_switch_gamestate(GameState::PlayState),
                _ => (self, seq![]),
            }
        } else if self.accumulates_score() {
            let score = (self.current_score + added_score) as i32;
            (
                GameManager {
                    current_score: score,
                    high_score: if score > self.high_score {
                        score
                    } else {
                        self.high_score
                    },
                    ..self
                },
                seq![
                    Command::UpdateScoreUi {
                        score: score,
                        high_score: self.high_score,
                        grapes: self.grapes,
                    },
                ],
            )
        } else {
            (self, seq![])
        }
    }

    /// What a frame may not meet: the menu key after the player died (the
    /// game-over flow is unfinished there), and a score that leaves `i32`.
    pub open spec fn process_allowed(self, menu_pressed: bool, added_score: i32) -> bool {
        &&& menu_pressed ==> self.current_game_state != GameState::_PlayerDead
        &&& !menu_pressed && self.accumulates_score() ==> fits_i32(
            self.current_score + added_score,
        )
    }

    /// The state and commands after `event`.
    pub open spec fn spec_handle(self, event: GameEvent) -> (Self, Seq<Command>) {
        match event {
            GameEvent::Ready => (
                GameManager { current_score: 0, is_tracking_score: true, ..self },
                seq![Command::ResetScoreRemainder],
            ),
            GameEvent::Process { menu_pressed, added_score } => self.spec_process(
                menu_pressed,
                added_score,
            ),
            GameEvent::SwitchGameState(s) => self.spec_switch_gamestate(s),
            GameEvent::ChangeToPlayState => self.spec_switch_gamestate(GameState::PlayState),
            GameEvent::ChangeToMenuState => self.spec_switch_gamestate(GameState::TitleState),
            GameEvent::StartScoreTracking => (
                GameManager { is_tracking_score: true, ..self },
                seq![],
            ),
            GameEvent::StopScoreTracking => self.spec_stop_score_tracking(),
            GameEvent::SetMusicVolume(bits) => (
                GameManager { music_volume_bits: bits, ..self },
                seq![Command::ApplyVolume, Command::SaveGame],
            ),
            GameEvent::AddGrapes(amount) => {
                let grapes = (self.grapes + amount) as i32;
                (
                    GameManager { grapes: grapes, ..self },
                    seq![
                        Command::UpdateScoreUi {
                            score: self.current_score,
                            high_score: self.high_score,
                            grapes: grapes,
                        },
                    ],
                )
            },
        }
    }

    /// Whether `event` can be handled: no arithmetic leaves `i32`, and no
    /// menu key after the player died.
    pub open spec fn event_allowed(self, event: GameEvent) -> bool {
        match event {
            GameEvent::Process { menu_pressed, added_score } => self.process_allowed(
                menu_pressed,
                added_score,
            ),
            GameEvent::AddGrapes(amount) => fits_i32(self.grapes + amount),
            _ => true,
        }
    }

    /// What the save file receives.
    pub open spec fn spec_save_data(self) -> SaveData {
        SaveData {
            high_score: self.high_score,
            grapes: self.grapes,
            music_volume_bits: self.music_volume_bits,
        }
    }

    /// The state after reading the save file, which gave `loaded` (`None`
    /// when it could not be opened or parsed).
    pub open spec fn spec_load_game(self, loaded: Option<SaveData>) -> Self {
        match loaded {
            Some(d) => GameManager {
                high_score: d.high_score,
                grapes: d.grapes,
                music_volume_bits: d.music_volume_bits,
                ..self
            },
            None => self,
        }
    }

    /// A fresh manager: title screen, no score, no grapes, volume 0.25.
    pub fn new() -> (gm: Self)
        ensures
            gm == (GameManager {
                current_game_state: GameState::TitleState,
                current_score: 0,
                high_score: 0,
                is_tracking_score: false,
                grapes: 0,
                music_volume_bits: DEFAULT_MUSIC_VOLUME_BITS,
            }),
    {
        GameManager {
            current_game_state: GameState::TitleState,
            current_score: 0,
            high_score: 0,
            is_tracking_score: false,
            grapes: 0,
            music_volume_bits: DEFAULT_MUSIC_VOLUME_BITS,
        }
    }

    /// Whether frames add to the score: only while playing and tracking.
    pub fn is_scoring(&self) -> (b: bool)
        ensures
            b == self.accumulates_score(),
    {
        self.current_game_state == GameState::PlayState && self.is_tracking_score
    }

    /// Entering the scene tree: the score restarts and is tracked.
    pub fn ready(&mut self) -> (cmds: Vec<Command>)
        ensures
            (*final(self), cmds@) == old(self).spec_handle(GameEvent::Ready),
    {
        self.current_score = 0;
        self.start_score_tracking();
        vec![Command::ResetScoreRemainder]
    }

    /// One frame; see `spec_process`.
    pub fn process(&mut self, menu_pressed: bool, added_score: i32) -> (cmds: Vec<Command>)
        requires
            old(self).process_allowed(menu_pressed, added_score),
        ensures
            (*final(self), cmds@) == old(self).spec_process(menu_pressed, added_score),
    {
        if menu_pressed {
            match self.current_game_state {
                GameState::PlayState => {
                    return self.switch_gamestate(GameState::PauseState);
                },
                GameState::PauseState => {
                    return self.switch_gamestate(GameState::PlayState);
                },
                _ => {
                    return Vec::new();
                },
            }
        }
        if self.current_game_state == GameState::PlayState && self.is_tracking_score {
            self.current_score = self.current_score + added_score;
            let cmds = vec![
                Command::UpdateScoreUi {
                    score: self.current_score,
                    high_score: self.high_score,
                    grapes: self.grapes,
                },
            ];
            if self.current_score > self.high_score {
                self.high_score = self.current_score;
            }
            cmds
        } else {
            Vec::new()
        }
    }

    fn pause_game(&mut self) -> (cmds: Vec<Command>)
        ensures
            (*final(self), cmds@) == old(self).spec_pause_game(),
    {
        self.is_tracking_score = false;
        vec![Command::PlayMenuMusic, Command::SetTreePaused(true), Command::ShowPauseOverlay]
    }

    fn resume_game(&mut self) -> (cmds: Vec<Command>)
        ensures
            (*final(self), cmds@) == old(self).spec_resume_game(),
    {
        let cmds = vec![Command::SetTreePaused(false), Command::FreePauseOverlay];
        self.is_tracking_score = true;
        let mut cmds = cmds;
        cmds.push(Command::PlayGameMusic);
        cmds
    }

    /// The transition to `new_state`; see `spec_switch_gamestate`.
    pub fn switch_gamestate(&mut self, new_state: GameState) -> (cmds: Vec<Command>)
        ensures
            (*final(self), cmds@) == old(self).spec_switch_gamestate(new_state),
    {
        let old_state = self.current_game_state;
        self.current_game_state = new_state;
        match new_state {
            GameState::PlayState => {
                if old_state == GameState::PauseState {
                    self.resume_game()
                } else {
                    self.current_score = 0;
                    self.start_score_tracking();
                    vec![
                        Command::ResetScoreRemainder,
                        Command::PlayGameMusic,
                        Command::ChangeScene(Scene::Game),
                    ]
                }
            },
            GameState::PauseState => self.pause_game(),
            GameState::TitleState => {
                let mut cmds = self.stop_score_tracking();
                cmds.push(Command::PlayMenuMusic);
                cmds.push(Command::ChangeScene(Scene::MainMenu));
                proof {
                    assert(cmds@ =~= seq![Command::SaveGame] + seq![
                        Command::PlayMenuMusic,
                        Command::ChangeScene(Scene::MainMenu),
                    ]);
                }
                cmds
            },
            GameState::_PlayerDead => Vec::new(),
        }
    }

    /// Starts a game, or resumes it when paused.
    pub fn change_to_play_state(&mut self) -> (cmds: Vec<Command>)
        ensures
            (*final(self), cmds@) == old(self).spec_handle(GameEvent::ChangeToPlayState),
    {
        self.switch_gamestate(GameState::PlayState)
    }

    /// Goes back to the title screen.
    pub fn change_to_menu_state(&mut self) -> (cmds: Vec<Command>)
        ensures
            (*final(self), cmds@) == old(self).spec_handle(GameEvent::ChangeToMenuState),
    {
        self.switch_gamestate(GameState::TitleState)
    }

    /// Frames add to the score again (while playing).
    pub fn start_score_tracking(&mut self)
        ensures
            *final(self) == (GameManager { is_tracking_score: true, ..*old(self) }),
    {
        self.is_tracking_score = true;
    }

    /// Stops the score, keeps the best score as the high score, saves.
    pub fn stop_score_tracking(&mut self) -> (cmds: Vec<Command>)
        ensures
            (*final(self), cmds@) == old(self).spec_stop_score_tracking(),
    {
        if self.current_score >= self.high_score {
            self.high_score = self.current_score;
        }
        self.is_tracking_score = false;
        vec![Command::SaveGame]
    }

    /// Takes a new music volume (bit pattern of the clamped float), applies and saves it.
    pub fn set_music_volume(&mut self, volume_bits: u32) -> (cmds: Vec<Command>)
        ensures
            (*final(self), cmds@) == old(self).spec_handle(GameEvent::SetMusicVolume(volume_bits)),
    {
        self.music_volume_bits = volume_bits;
        vec![Command::ApplyVolume, Command::SaveGame]
    }

    /// Adds grapes and refreshes the labels.
    pub fn add_grapes(&mut self, amount: i32) -> (cmds: Vec<Command>)
        requires
            fits_i32(old(self).grapes + amount),
        ensures
            (*final(self), cmds@) == old(self).spec_handle(GameEvent::AddGrapes(amount)),
    {
        self.grapes = self.grapes + amount;
        vec![
            Command::UpdateScoreUi {
                score: self.current_score,
                high_score: self.high_score,
                grapes: self.grapes,
            },
        ]
    }

    /// The save data: high score, grapes, music volume.
    pub fn save_data(&self) -> (data: SaveData)
        ensures
            data == self.spec_save_data(),
    {
        SaveData {
            high_score: self.high_score,
            grapes: self.grapes,
            music_volume_bits: self.music_volume_bits,
        }
    }

    /// Takes what reading the save file gave (`None` when the file could not
    /// be opened or parsed); returns whether a save was loaded.
    pub fn load_game(&mut self, loaded: Option<SaveData>) -> (ok: bool)
        ensures
            *final(self) == old(self).spec_load_game(loaded),
            ok == loaded.is_some(),
    {
        match loaded {
            Some(d) => {
                self.high_score = d.high_score;
                self.grapes = d.grapes;
                self.music_volume_bits = d.music_volume_bits;
                true
            },
            None => false,
        }
    }

    /// Reacts to `event`; see `spec_handle`.
    pub fn handle(&mut self, event: GameEvent) -> (cmds: Vec<Command>)
        requires
            old(self).event_allowed(event),
        ensures
            (*final(self), cmds@) == old(self).spec_handle(event),
    {
        match event {
            GameEvent::Ready => self.ready(),
            GameEvent::Process { menu_pressed, added_score } => self.process(
                menu_pressed,
                added_score,
            ),
            GameEvent::SwitchGameState(s) => self.switch_gamestate(s),
            GameEvent::ChangeToPlayState => self.change_to_play_state(),
            GameEvent::ChangeToMenuState => self.change_to_menu_state(),
            GameEvent::StartScoreTracking => {
                self.start_score_tracking();
                Vec::new()
            },
            GameEvent::StopScoreTracking => self.stop_score_tracking(),
            GameEvent::SetMusicVolume(bits) => self.set_music_volume(bits),
            GameEvent::AddGrapes(amount) => self.add_grapes(amount),
        }
    }
}

/// The state after handling `events` in order.
pub open spec fn spec_run(gm: GameManager, events: Seq<GameEvent>) -> GameManager
    decreases events.len(),
{
    if events.len() == 0 {
        gm
    } else {
        spec_run(gm.spec_handle(events[0]).0, events.drop_first())
    }
}

/// Each event of `events` can be handled in the state that it meets.
pub open spec fn run_allowed(gm: GameManager, events: Seq<GameEvent>) -> bool
    decreases events.len(),
{
    if events.len() == 0 {
        true
    } else {
        gm.event_allowed(events[0]) && run_allowed(gm.spec_handle(events[0]).0, events.drop_first())
    }
}

/// The high score is never negative and never below the current score.
pub open spec fn scores_consistent(gm: GameManager) -> bool {
    0 <= gm.high_score && gm.current_score <= gm.high_score
}

/// Law: no event lowers the high score (only loading a save file replaces it).
pub proof fn law_high_score_never_decreases(gm: GameManager, event: GameEvent)
    requires
        gm.event_allowed(event),
    ensures
        gm.spec_handle(event).0.high_score >= gm.high_score,
{
}

/// Law: along any run of events, the high score never decreases.
pub proof fn law_run_high_score_never_decreases(gm: GameManager, events: Seq<GameEvent>)
    requires
        run_allowed(gm, events),
    ensures
        spec_run(gm, events).high_score >= gm.high_score,
    decreases events.len(),
{
    if events.len() > 0 {
        law_high_score_never_decreases(gm, events[0]);
        law_run_high_score_never_decreases(gm.spec_handle(events[0]).0, events.drop_first());
    }
}

/// Law: every event keeps the high score non-negative and at least the
/// current score.
pub proof fn law_event_keeps_scores_consistent(gm: GameManager, event: GameEvent)
    requires
        scores_consistent(gm),
        gm.event_allowed(event),
    ensures
        scores_consistent(gm.spec_handle(event).0),
{
}

/// Law: starting from a fresh manager, the high score is never negative nor
/// below the current score, whatever events follow.
pub proof fn law_run_keeps_scores_consistent(gm: GameManager, events: Seq<GameEvent>)
    requires
        scores_consistent(gm),
        run_allowed(gm, events),
    ensures
        scores_consistent(spec_run(gm, events)),
    decreases events.len(),
{
    if events.len() > 0 {
        law_event_keeps_scores_consistent(gm, events[0]);
        law_run_keeps_scores_consistent(gm.spec_handle(events[0]).0, events.drop_first());
    }
}

/// Law: pausing a running game with the menu key and pressing it again
/// resumes the same game: the score, high score and grapes are kept and the
/// score is tracked again; pausing stops tracking, plays the menu music,
/// freezes the tree and shows the overlay, resuming undoes each of these.
pub proof fn law_pause_then_resume_keeps_game(gm: GameManager, added1: i32, added2: i32)
    requires
        gm.current_game_state == GameState::PlayState,
    ensures
        ({
            let (paused, c1) = gm.spec_process(true, added1);
            let (resumed, c2) = paused.spec_process(true, added2);
            &&& paused == GameManager {
                current_game_state: GameState::PauseState,
                is_tracking_score: false,
                ..gm
            }
            &&& c1 == seq![
                Command::PlayMenuMusic,
                Command::SetTreePaused(true),
                Command::ShowPauseOverlay,
            ]
            &&& resumed == GameManager { is_tracking_score: true, ..gm }
            &&& c2 == seq![
                Command::SetTreePaused(false),
                Command::FreePauseOverlay,
                Command::PlayGameMusic,
            ]
        }),
{
}

/// Law: the menu key does nothing on the title screen, and frames that are
/// not accumulating the score (title, pause, or score not tracked) change
/// nothing.
pub proof fn law_idle_frames_change_nothing(gm: GameManager, added: i32)
    ensures
        gm.current_game_state == GameState::TitleState ==> gm.spec_process(true, added) == (
            gm,
            Seq::<Command>::empty(),
        ),
        !gm.accumulates_score() ==> gm.spec_process(false, added) == (gm, Seq::<Command>::empty()),
{
}

/// Law: starting a game from anywhere but the pause menu starts from a zero
/// score, tracked, in the game scene.
pub proof fn law_new_game_starts_from_zero(gm: GameManager)
    requires
        gm.current_game_state != GameState::PauseState,
    ensures
        ({
            let (g, c) = gm.spec_switch_gamestate(GameState::PlayState);
            &&& g.current_game_state == GameState::PlayState
            &&& g.current_score == 0
            &&& g.is_tracking_score
            &&& g.high_score == gm.high_score
            &&& g.grapes == gm.grapes
            &&& c.contains(Command::ChangeScene(Scene::Game))
        }),
{
    let (g, c) = gm.spec_switch_gamestate(GameState::PlayState);
    assert(c[2] == Command::ChangeScene(Scene::Game));
}

/// Law: going back to the title screen keeps the best score as the high
/// score, stops tracking and saves before the scene changes.
pub proof fn law_title_keeps_best_score_and_saves(gm: GameManager)
    ensures
        ({
            let (g, c) = gm.spec_switch_gamestate(GameState::TitleState);
            &&& g.high_score == gm.best_score()
            &&& g.high_score >= gm.current_score
            &&& g.high_score >= gm.high_score
            &&& !g.is_tracking_score
            &&& c == seq![
                Command::SaveGame,
                Command::PlayMenuMusic,
                Command::ChangeScene(Scene::MainMenu),
            ]
        }),
{
    let (g, c) = gm.spec_switch_gamestate(GameState::TitleState);
    assert(c =~= seq![
        Command::SaveGame,
        Command::PlayMenuMusic,
        Command::ChangeScene(Scene::MainMenu),
    ]);
}

/// Law: loading what was saved gives back the saved high score, grapes and
/// volume, whatever manager loads it; loading a manager's own save changes
/// nothing.
pub proof fn law_load_gives_back_save(saved: GameManager, loader: GameManager)
    ensures
        loader.spec_load_game(Some(saved.spec_save_data())).spec_save_data()
            == saved.spec_save_data(),
        saved.spec_load_game(Some(saved.spec_save_data())) == saved,
{
}

/// Law: entering the scene tree neither starts, pauses nor leaves a game: the
/// game state, high score, grapes and volume are kept, only the score restarts
/// from zero and is tracked. On the title screen the menu key afterwards still
/// does nothing and frames still add no score.
pub proof fn law_ready_keeps_game_state(gm: GameManager, added: i32)
    ensures
        ({
            let (g, c) = gm.spec_handle(GameEvent::Ready);
            &&& g.current_game_state == gm.current_game_state
            &&& g.spec_save_data() == gm.spec_save_data()
            &&& g.current_score == 0
            &&& g.is_tracking_score
            &&& c.len() == 1
            &&& gm.current_game_state == GameState::TitleState ==> {
                &&& g.spec_process(true, added) == (g, Seq::<Command>::empty())
                &&& g.spec_process(false, added) == (g, Seq::<Command>::empty())
            }
        }),
{
}

} // verus!
