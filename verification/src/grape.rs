//! The grape spawner and the grapes it spawns.
use vstd::prelude::*;

verus! {

/// What the grape spawner does on one timer tick.
#[derive(Clone, Copy, Debug, PartialEq, Eq, Structural)]
pub enum GrapeSpawnPlan {
    /// The player is dead: nothing spawns.
    PlayerDead,
    /// No grape scene is assigned: an error is reported, nothing spawns.
    NoScene,
    /// A grape is spawned at a random height and the timer gets a new interval.
    Spawn,
}

/// The grape spawner's state: whether a grape scene is assigned.
#[derive(Clone, Copy, Debug, PartialEq, Eq, Structural)]
pub struct GrapeSpawn {
    pub has_grape_scene: bool,
}

impl GrapeSpawn {
    /// A spawner with no grape scene.
    pub fn new() -> (s: Self)
        ensures
            !s.has_grape_scene,
    {
        GrapeSpawn { has_grape_scene: false }
    }

    /// What one timer tick does.
    pub fn spawn_grapes(&self, player_dead: bool) -> (plan: GrapeSpawnPlan)
        ensures
            plan == (if player_dead {
                GrapeSpawnPlan::PlayerDead
            } else if !self.has_grape_scene {
                GrapeSpawnPlan::NoScene
            } else {
                GrapeSpawnPlan::Spawn
            }),
    {
        if player_dead {
            return GrapeSpawnPlan::PlayerDead;
        }
        if !self.has_grape_scene {
            return GrapeSpawnPlan::NoScene;
        }
        GrapeSpawnPlan::Spawn
    }
}

/// A bunch of grapes flying towards the player.
#[derive(Clone, Copy, Debug, PartialEq, Eq, Structural)]
pub struct Grapes {
    pub is_visible: bool,
}

impl Grapes {
    /// The grapes and the pickup decision after a body entered them.
    pub open spec fn spec_on_body_entered(self, in_player_group: bool, is_player: bool) -> (
        Self,
        bool,
    ) {
        let picked = self.is_visible && (in_player_group || is_player);
        (Grapes { is_visible: self.is_visible && !picked }, picked)
    }

    /// Visible grapes.
    pub fn new() -> (g: Self)
        ensures
            g.is_visible,
    {
        Grapes { is_visible: true }
    }

    /// A body entered the grapes: while they are still visible and the body
    /// is the player (in the "Player" group, or of the player's class), the
    /// grapes are picked up: one grape for the game manager, the pickup
    /// sound, and the grapes disappear. Grapes that already disappeared are
    /// not picked up again. Returns whether they were picked up.
    pub fn on_body_entered(&mut self, in_player_group: bool, is_player: bool) -> (picked: bool)
        ensures
            (*final(self), picked) == old(self).spec_on_body_entered(in_player_group, is_player),
    {
        if self.is_visible && (in_player_group || is_player) {
            self.is_visible = false;
            true
        } else {
            false
        }
    }
}

/// Law: grapes are collected at most once: after a pickup, no further entry
/// of the player picks them up again.
pub proof fn law_grapes_collected_at_most_once(
    g: Grapes,
    group1: bool,
    player1: bool,
    group2: bool,
    player2: bool,
)
    ensures
        ({
            let (after, picked1) = g.spec_on_body_entered(group1, player1);
            let (again, picked2) = after.spec_on_body_entered(group2, player2);
            picked1 ==> !after.is_visible && !picked2 && again == after
        }),
{
}

} // verus!
