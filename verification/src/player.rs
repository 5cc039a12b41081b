//! The player: its animation state and its death.
use vstd::prelude::*;

verus! {

/// The animation that the player's sprite plays.
#[derive(Clone, Copy, Debug, PartialEq, Eq, Structural)]
pub enum AnimationState {
    Walk,
    Fly,
    Fall,
    Land,
    Die,
}

/// The animation for a frame: dying wins, then flying (the fly key is held),
/// then falling (in the air), then landing (on the floor after flying), and
/// walking otherwise.
pub open spec fn spec_animation(
    is_dead: bool,
    fly_pressed: bool,
    on_floor: bool,
    was_flying: bool,
) -> AnimationState {
    if is_dead {
        AnimationState::Die
    } else if fly_pressed {
        AnimationState::Fly
    } else if !on_floor {
        AnimationState::Fall
    } else if was_flying && on_floor {
        AnimationState::Land
    } else {
        AnimationState::Walk
    }
}

/// The sprite animation's name for each state.
pub open spec fn spec_animation_name(a: AnimationState) -> Seq<char> {
    match a {
        AnimationState::Die => "die"@,
        AnimationState::Fly => "fly"@,
        AnimationState::Fall => "fall"@,
        AnimationState::Land => "land"@,
        AnimationState::Walk => "walk"@,
    }
}

/// What one physics frame decided.
#[derive(Clone, Copy, Debug, PartialEq, Eq, Structural)]
pub struct PlayerFrame {
    /// The animation to play.
    pub animation: AnimationState,
    /// Whether the game manager must be told that the game is over.
    pub report_game_over: bool,
}

/// The player's state.
#[derive(Clone, Copy, Debug, PartialEq, Eq, Structural)]
pub struct Player {
    pub is_dead: bool,
    pub was_flying: bool,
}

impl Player {
    /// The state after `player_died`, which found the game manager or not.
    pub open spec fn spec_player_died(self, manager_found: bool) -> (Self, bool) {
        if self.is_dead || !manager_found {
            (self, false)
        } else {
            (Player { is_dead: true, ..self }, true)
        }
    }

    /// The state and decision after a physics frame: the animation is chosen
    /// from the state before the frame, the fly key is remembered, and a
    /// collision with a solid body kills the player.
    pub open spec fn spec_physics_process(
        self,
        fly_pressed: bool,
        on_floor: bool,
        hit_solid_body: bool,
        manager_found: bool,
    ) -> (Self, PlayerFrame) {
        let animation = spec_animation(self.is_dead, fly_pressed, on_floor, self.was_flying);
        let p = Player { was_flying: fly_pressed, ..self };
        if hit_solid_body {
            let (q, report) = p.spec_player_died(manager_found);
            (q, PlayerFrame { animation, report_game_over: report })
        } else {
            (p, PlayerFrame { animation, report_game_over: false })
        }
    }

    /// A living player that was not flying.
    pub fn new() -> (p: Self)
        ensures
            p == (Player { is_dead: false, was_flying: false }),
    {
        Player { is_dead: false, was_flying: false }
    }

    /// Entering the scene tree: alive, not flying.
    pub fn ready(&mut self)
        ensures
            *final(self) == (Player { is_dead: false, was_flying: false }),
    {
        self.is_dead = false;
        self.was_flying = false;
    }

    /// The animation for a frame; see `spec_animation`.
    pub fn choose_animation(
        is_dead: bool,
        fly_pressed: bool,
        on_floor: bool,
        was_flying: bool,
    ) -> (a: AnimationState)
        ensures
            a == spec_animation(is_dead, fly_pressed, on_floor, was_flying),
    {
        if is_dead {
            AnimationState::Die
        } else if fly_pressed {
            AnimationState::Fly
        } else if !on_floor {
            AnimationState::Fall
        } else if was_flying && on_floor {
            AnimationState::Land
        } else {
            AnimationState::Walk
        }
    }

    /// The sprite animation's name for `a`.
    pub fn animation_name(a: AnimationState) -> (name: &'static str)
        ensures
            name@ == spec_animation_name(a),
    {
        match a {
            AnimationState::Die => "die",
            AnimationState::Fly => "fly",
            AnimationState::Fall => "fall",
            AnimationState::Land => "land",
            AnimationState::Walk => "walk",
        }
    }

    /// One physics frame; see `spec_physics_process`. The engine side moves
    /// the body and tells whether it collided with a solid character body.
    pub fn physics_process(
        &mut self,
        fly_pressed: bool,
        on_floor: bool,
        hit_solid_body: bool,
        manager_found: bool,
    ) -> (frame: PlayerFrame)
        ensures
            (*final(self), frame) == old(self).spec_physics_process(
                fly_pressed,
                on_floor,
                hit_solid_body,
                manager_found,
            ),
    {
        let animation = Self::choose_animation(self.is_dead, fly_pressed, on_floor, self.was_flying);
        self.was_flying = fly_pressed;
        if hit_solid_body {
            let report = self.player_died(manager_found);
            PlayerFrame { animation, report_game_over: report }
        } else {
            PlayerFrame { animation, report_game_over: false }
        }
    }

    /// The player dies, unless already dead or the game manager is missing
    /// (an error is reported then); returns whether the game manager must be
    /// told that the game is over.
    pub fn player_died(&mut self, manager_found: bool) -> (report: bool)
        ensures
            (*final(self), report) == old(self).spec_player_died(manager_found),
    {
        if self.is_dead {
            return false;
        }
        if !manager_found {
            return false;
        }
        self.is_dead = true;
        true
    }

    /// An area entered the player's detector: the player dies when the area
    /// belongs to the "Player" group.
    pub fn on_obstacles_entered(&mut self, area_in_player_group: bool, manager_found: bool) -> (report: bool)
        ensures
            area_in_player_group ==> (*final(self), report) == old(self).spec_player_died(
                manager_found,
            ),
            !area_in_player_group ==> *final(self) == *old(self) && !report,
    {
        if area_in_player_group {
            self.player_died(manager_found)
        } else {
            false
        }
    }
}

/// Law: death is final. A dead player stays dead through every frame and
/// every further death, always plays the dying animation, and the game over
/// is never reported again.
pub proof fn law_death_is_final(
    p: Player,
    fly_pressed: bool,
    on_floor: bool,
    hit_solid_body: bool,
    manager_found: bool,
)
    requires
        p.is_dead,
    ensures
        ({
            let (q, frame) = p.spec_physics_process(fly_pressed, on_floor, hit_solid_body, manager_found);
            q.is_dead && frame.animation == AnimationState::Die && !frame.report_game_over
        }),
        ({
            let (q, report) = p.spec_player_died(manager_found);
            q == p && !report
        }),
{
}

/// Law: the game over is reported at most once: after a death that reported
/// it, a second death reports nothing and changes nothing.
pub proof fn law_game_over_reported_once(p: Player, found1: bool, found2: bool)
    ensures
        ({
            let (q, r1) = p.spec_player_died(found1);
            let (s, r2) = q.spec_player_died(found2);
            r1 ==> (q.is_dead && !r2 && s == q)
        }),
{
}

/// Law: a collision with a solid body kills a living player whenever the game
/// manager is found, whatever the fly key and the floor, and the game over is
/// reported; without a collision the player's life does not change and nothing
/// is reported.
pub proof fn law_collision_kills_living_player(
    p: Player,
    fly_pressed: bool,
    on_floor: bool,
    hit_solid_body: bool,
    manager_found: bool,
)
    ensures
        ({
            let (q, frame) = p.spec_physics_process(fly_pressed, on_floor, hit_solid_body, manager_found);
            &&& (!p.is_dead && hit_solid_body && manager_found) ==> (q.is_dead && frame.report_game_over)
            &&& !hit_solid_body ==> (q.is_dead == p.is_dead && !frame.report_game_over)
            &&& frame.report_game_over ==> (!p.is_dead && q.is_dead)
            &&& q.was_flying == fly_pressed
        }),
{
}

/// Law: the animation follows the frame's inputs by priority: a dead player
/// always dies; a living player holding the fly key always flies, in the air
/// or on the floor, on the first frame or any later one; a living player not
/// flying falls in the air, lands on the floor just after flying, and walks
/// otherwise.
pub proof fn law_animation_priorities(
    is_dead: bool,
    fly_pressed: bool,
    on_floor: bool,
    was_flying: bool,
)
    ensures
        is_dead ==> spec_animation(is_dead, fly_pressed, on_floor, was_flying) == AnimationState::Die,
        !is_dead && fly_pressed ==> spec_animation(is_dead, fly_pressed, on_floor, was_flying)
            == AnimationState::Fly,
        !is_dead && !fly_pressed && !on_floor ==> spec_animation(
            is_dead,
            fly_pressed,
            on_floor,
            was_flying,
        ) == AnimationState::Fall,
        !is_dead && !fly_pressed && on_floor && was_flying ==> spec_animation(
            is_dead,
            fly_pressed,
            on_floor,
            was_flying,
        ) == AnimationState::Land,
        !is_dead && !fly_pressed && on_floor && !was_flying ==> spec_animation(
            is_dead,
            fly_pressed,
            on_floor,
            was_flying,
        ) == AnimationState::Walk,
        spec_animation(is_dead, fly_pressed, on_floor, was_flying) == AnimationState::Die
            <==> is_dead,
{
}

/// Law: a frame's animation is the one chosen for the player's state before
/// the frame, so a living player holding the fly key is shown flying in the
/// frame that kills it.
pub proof fn law_frame_animation_uses_state_before(
    p: Player,
    fly_pressed: bool,
    on_floor: bool,
    hit_solid_body: bool,
    manager_found: bool,
)
    ensures
        p.spec_physics_process(fly_pressed, on_floor, hit_solid_body, manager_found).1.animation
            == spec_animation(p.is_dead, fly_pressed, on_floor, p.was_flying),
        !p.is_dead && fly_pressed ==> p.spec_physics_process(
            fly_pressed,
            on_floor,
            hit_solid_body,
            manager_found,
        ).1.animation == AnimationState::Fly,
{
}

} // verus!
