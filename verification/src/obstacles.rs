//! The obstacle spawner: a weighted random choice of the obstacle kind and
//! the plan for placing the chosen scene.
use vstd::prelude::*;

verus! {

/// Sum of the first `k` weights (0 when `k <= 0`).
pub open spec fn prefix_sum(w: Seq<i32>, k: int) -> int
    decreases k,
{
    if k <= 0 || w.len() == 0 {
        0
    } else if k > w.len() {
        prefix_sum(w, w.len() as int)
    } else {
        prefix_sum(w, k - 1) + w[k - 1]
    }
}

/// Sum of all the weights.
pub open spec fn total_weight_of(w: Seq<i32>) -> int {
    prefix_sum(w, w.len() as int)
}

/// Every running sum of the weights fits in an `i32`, so that summing them
/// in order never overflows.
pub open spec fn prefix_sums_fit(w: Seq<i32>) -> bool {
    forall|k: int| 0 <= k <= w.len() ==> i32::MIN <= #[trigger] prefix_sum(w, k) <= i32::MAX
}

/// The first index `i0 >= i` whose running sum (up to and including it)
/// exceeds `target`, or -1 if there is none.
pub open spec fn first_exceeding(w: Seq<i32>, target: int, i: int) -> int
    decreases w.len() - i,
{
    if i < 0 || i >= w.len() {
        -1
    } else if target < prefix_sum(w, i + 1) {
        i
    } else {
        first_exceeding(w, target, i + 1)
    }
}

/// The obstacle kind chosen for a roll of the random number generator:
/// -1 when there are no weights or their total is not positive; otherwise
/// the roll is reduced modulo the total and the first kind whose running
/// weight exceeds it is chosen (-1 if none does).
pub open spec fn spec_choose_obstacle(w: Seq<i32>, roll: int) -> int {
    if w.len() == 0 {
        -1
    } else if total_weight_of(w) <= 0 {
        -1
    } else {
        first_exceeding(w, roll % total_weight_of(w), 0)
    }
}

/// The rarity weights that an obstacle spawner can work with: summing them
/// never overflows and every index fits in the `i32` result.
pub open spec fn weights_usable(w: Seq<i32>) -> bool {
    &&& prefix_sums_fit(w)
    &&& w.len() <= i32::MAX
}

/// What the spawner does on one timer tick.
#[derive(Clone, Copy, Debug, PartialEq, Eq)]
pub enum ObstacleSpawnPlan {
    /// The player is dead: nothing spawns.
    PlayerDead,
    /// The scene array is empty: an error is reported, nothing spawns.
    NoScenes,
    /// The weighted choice gave a kind without a scene mapping: nothing spawns.
    Skip,
    /// No scene is assigned at the mapped index: an error is reported.
    MissingScene(usize),
    /// Spawn an owl from the scene at `scene_index`, at the player's height.
    Owl { scene_index: usize },
    /// Spawn a tree from the scene at `scene_index` at a random height with a
    /// randomly rotated branch; the branch keeps rotating when `rotating`.
    Tree { scene_index: usize, rotating: bool },
}

/// The placement plan for a chosen kind, given which scene slots hold a scene.
pub open spec fn spec_plan_obstacle(scenes: Seq<bool>, spawned_type: int) -> ObstacleSpawnPlan {
    if spawned_type == 0 {
        if scenes.len() <= 0 || !scenes[0] {
            ObstacleSpawnPlan::MissingScene(0)
        } else {
            ObstacleSpawnPlan::Owl { scene_index: 0 }
        }
    } else if spawned_type == 1 || spawned_type == 2 {
        if scenes.len() <= 1 || !scenes[1] {
            ObstacleSpawnPlan::MissingScene(1)
        } else {
            ObstacleSpawnPlan::Tree { scene_index: 1, rotating: spawned_type == 2 }
        }
    } else {
        ObstacleSpawnPlan::Skip
    }
}

/// The obstacle spawner's state: the rarity weight of each obstacle kind and,
/// for each slot of its scene array, whether a scene is assigned there.
pub struct ObstacleSpawn {
    pub obstacle_rarity: Vec<i32>,
    pub obstacle_scenes: Vec<bool>,
}

/// Godot's `randi` (a global utility function): returns a pseudo-random
/// unsigned 32-bit integer, as an `i64` that its documentation promises to lie
/// between 0 and 2^32 - 1; it is handed on as the `u32` it is. Nothing more is
/// stated, since the value depends on the generator's state. It can only be
/// called while the Godot engine runs.
#[verifier::external_body]
fn random_u32() -> (r: u32) {
    godot::global::randi() as u32
}

impl ObstacleSpawn {
    /// A spawner with the default rarities 40, 35 and 25 and no scenes.
    pub fn new() -> (s: Self)
        ensures
            s.obstacle_rarity@ == seq![40i32, 35i32, 25i32],
            s.obstacle_scenes@ == Seq::<bool>::empty(),
            weights_usable(s.obstacle_rarity@),
    {
        let s = ObstacleSpawn { obstacle_rarity: vec![40, 35, 25], obstacle_scenes: Vec::new() };
        proof {
            let w = s.obstacle_rarity@;
            assert(prefix_sum(w, 0) == 0);
            assert(prefix_sum(w, 1) == 40);
            assert(prefix_sum(w, 2) == 75);
            assert(prefix_sum(w, 3) == 100);
        }
        s
    }

    /// Whether the rarity weights can be summed without overflow and indexed
    /// by an `i32`.
    pub fn rarity_usable(&self) -> (ok: bool)
        ensures
            ok == weights_usable(self.obstacle_rarity@),
    {
        let ghost w = self.obstacle_rarity@;
        if self.obstacle_rarity.len() > 2147483647 {
            return false;
        }
        let mut sum: i64 = 0;
        let mut i: usize = 0;
        while i < self.obstacle_rarity.len()
            invariant
                w == self.obstacle_rarity@,
                i <= w.len(),
                sum == prefix_sum(w, i as int),
                forall|k: int| 0 <= k <= i ==> i32::MIN <= #[trigger] prefix_sum(w, k) <= i32::MAX,
            decreases w.len() - i,
        {
            assert(prefix_sum(w, i + 1) == prefix_sum(w, i as int) + w[i as int]);
            sum = sum + self.obstacle_rarity[i] as i64;
            if sum < -2147483648 || sum > 2147483647 {
                return false;
            }
            i = i + 1;
        }
        true
    }

    /// Sum of the rarity weights.
    fn total_weight(&self) -> (total: i32)
        requires
            prefix_sums_fit(self.obstacle_rarity@),
        ensures
            total == total_weight_of(self.obstacle_rarity@),
    {
        let mut total: i32 = 0;
        let mut i: usize = 0;
        while i < self.obstacle_rarity.len()
            invariant
                i <= self.obstacle_rarity@.len(),
                prefix_sums_fit(self.obstacle_rarity@),
                total == prefix_sum(self.obstacle_rarity@, i as int),
            decreases self.obstacle_rarity@.len() - i,
        {
            assert(prefix_sum(self.obstacle_rarity@, i + 1) == prefix_sum(
                self.obstacle_rarity@,
                i as int,
            ) + self.obstacle_rarity@[i as int]);
            assert(i32::MIN <= prefix_sum(self.obstacle_rarity@, i + 1) <= i32::MAX);
            total = total + self.obstacle_rarity[i];
            i = i + 1;
        }
        total
    }

    /// The obstacle kind that the weighted choice picks for the random value
    /// `roll`; see `spec_choose_obstacle`.
    pub fn choose_obstacle(&self, roll: i64) -> (index: i32)
        requires
            weights_usable(self.obstacle_rarity@),
            0 <= roll <= u32::MAX,
        ensures
            index == spec_choose_obstacle(self.obstacle_rarity@, roll as int),
    {
        let ghost w = self.obstacle_rarity@;
        if self.obstacle_rarity.len() == 0 {
            return -1;
        }
        let total = self.total_weight();
        if total <= 0 {
            return -1;
        }
        let random_weight: i64 = roll % (total as i64);
        let mut cumulative_weight: i64 = 0;
        let mut i: usize = 0;
        while i < self.obstacle_rarity.len()
            invariant
                w == self.obstacle_rarity@,
                weights_usable(w),
                i <= w.len(),
                cumulative_weight == prefix_sum(w, i as int),
                random_weight == (roll as int) % total_weight_of(w),
                0 < total_weight_of(w),
                first_exceeding(w, random_weight as int, 0) == first_exceeding(
                    w,
                    random_weight as int,
                    i as int,
                ),
            decreases w.len() - i,
        {
            assert(prefix_sum(w, i + 1) == prefix_sum(w, i as int) + w[i as int]);
            assert(i32::MIN <= prefix_sum(w, i + 1) <= i32::MAX);
            cumulative_weight = cumulative_weight + self.obstacle_rarity[i] as i64;
            if random_weight < cumulative_weight {
                return i as i32;
            }
            i = i + 1;
        }
        -1
    }

    /// Draws a random value and makes the weighted choice with it. Whatever the
    /// generator returns, the result is the choice for some 32-bit roll.
    pub fn randomized_obstacle(&self) -> (index: i32)
        requires
            weights_usable(self.obstacle_rarity@),
        ensures
            exists|roll: int|
                0 <= roll <= u32::MAX && index == spec_choose_obstacle(
                    self.obstacle_rarity@,
                    roll,
                ),
    {
        if self.obstacle_rarity.len() == 0 {
            assert(-1 == spec_choose_obstacle(self.obstacle_rarity@, 0));
            return -1;
        }
        let total = self.total_weight();
        if total <= 0 {
            assert(-1 == spec_choose_obstacle(self.obstacle_rarity@, 0));
            return -1;
        }
        let roll: u32 = random_u32();
        let index = self.choose_obstacle(roll as i64);
        assert(index == spec_choose_obstacle(self.obstacle_rarity@, roll as int));
        index
    }

    /// The placement plan for an obstacle of kind `spawned_type`: kind 0 is
    /// an owl (scene 0), kinds 1 and 2 are trees (scene 1; kind 2 rotates),
    /// any other kind spawns nothing.
    pub fn plan_obstacle(&self, spawned_type: i32) -> (plan: ObstacleSpawnPlan)
        ensures
            plan == spec_plan_obstacle(self.obstacle_scenes@, spawned_type as int),
    {
        let target_scene_index: usize = if spawned_type == 0 {
            0
        } else if spawned_type == 1 || spawned_type == 2 {
            1
        } else {
            return ObstacleSpawnPlan::Skip;
        };
        if target_scene_index >= self.obstacle_scenes.len()
            || !self.obstacle_scenes[target_scene_index] {
            return ObstacleSpawnPlan::MissingScene(target_scene_index);
        }
        if spawned_type == 0 {
            ObstacleSpawnPlan::Owl { scene_index: 0 }
        } else {
            ObstacleSpawnPlan::Tree { scene_index: 1, rotating: spawned_type == 2 }
        }
    }

    /// What one timer tick does: nothing when the player is dead, an error
    /// when no scene slot exists, otherwise a weighted random choice of the
    /// kind and its placement plan.
    pub fn spawn_obstacle(&self, player_dead: bool) -> (plan: ObstacleSpawnPlan)
        requires
            !player_dead && self.obstacle_scenes@.len() != 0 ==> weights_usable(
                self.obstacle_rarity@,
            ),
        ensures
            player_dead ==> plan == ObstacleSpawnPlan::PlayerDead,
            !player_dead && self.obstacle_scenes@.len() == 0 ==> plan
                == ObstacleSpawnPlan::NoScenes,
            !player_dead && self.obstacle_scenes@.len() != 0 ==> exists|roll: int|
                0 <= roll <= u32::MAX && plan == spec_plan_obstacle(
                    self.obstacle_scenes@,
                    spec_choose_obstacle(self.obstacle_rarity@, roll),
                ),
    {
        if player_dead {
            return ObstacleSpawnPlan::PlayerDead;
        }
        if self.obstacle_scenes.len() == 0 {
            return ObstacleSpawnPlan::NoScenes;
        }
        let spawned_type = self.randomized_obstacle();
        let plan = self.plan_obstacle(spawned_type);
        proof {
            let roll = choose|roll: int|
                0 <= roll <= u32::MAX && spawned_type == spec_choose_obstacle(
                    self.obstacle_rarity@,
                    roll,
                );
            assert(plan == spec_plan_obstacle(
                self.obstacle_scenes@,
                spec_choose_obstacle(self.obstacle_rarity@, roll),
            ));
        }
        plan
    }
}

/// Every weight is non-negative.
pub open spec fn weights_nonnegative(w: Seq<i32>) -> bool {
    forall|i: int| 0 <= i < w.len() ==> 0 <= #[trigger] w[i]
}

/// With non-negative weights the running sums never decrease.
proof fn lemma_prefix_monotone(w: Seq<i32>, a: int, b: int)
    requires
        weights_nonnegative(w),
        0 <= a <= b <= w.len(),
    ensures
        prefix_sum(w, a) <= prefix_sum(w, b),
    decreases b - a,
{
    if a < b {
        lemma_prefix_monotone(w, a, b - 1);
        assert(prefix_sum(w, b) == prefix_sum(w, b - 1) + w[b - 1]);
    }
}

/// Searching from `i`, when the target lies between the running sum at `i`
/// and the total, the search stops at the kind whose interval holds it.
proof fn lemma_first_exceeding_in_interval(w: Seq<i32>, t: int, i: int)
    requires
        weights_nonnegative(w),
        0 <= i <= w.len(),
        prefix_sum(w, i) <= t < prefix_sum(w, w.len() as int),
    ensures
        i <= first_exceeding(w, t, i) < w.len(),
        prefix_sum(w, first_exceeding(w, t, i)) <= t < prefix_sum(w, first_exceeding(w, t, i) + 1),
    decreases w.len() - i,
{
    if i == w.len() {
    } else if t < prefix_sum(w, i + 1) {
    } else {
        lemma_first_exceeding_in_interval(w, t, i + 1);
    }
}

/// Law (weighted choice): with non-negative weights whose total is positive,
/// kind `k` is chosen exactly when the roll, reduced modulo the total, falls
/// in the interval from the running sum before `k` up to the running sum
/// through `k`; so each kind owns a share of the rolls equal to its weight.
pub proof fn law_choice_owns_interval(w: Seq<i32>, roll: int, k: int)
    requires
        weights_nonnegative(w),
        total_weight_of(w) > 0,
        0 <= roll,
        0 <= k < w.len(),
    ensures
        spec_choose_obstacle(w, roll) == k <==> prefix_sum(w, k) <= roll % total_weight_of(w)
            < prefix_sum(w, k + 1),
{
    let t = roll % total_weight_of(w);
    lemma_first_exceeding_in_interval(w, t, 0);
    let r = first_exceeding(w, t, 0);
    if r < k {
        lemma_prefix_monotone(w, r + 1, k);
    } else if r > k {
        lemma_prefix_monotone(w, k + 1, r);
    }
}

/// Law (weighted choice): with non-negative weights whose total is positive,
/// some kind is always chosen, and it is a kind of positive weight.
pub proof fn law_choice_has_positive_weight(w: Seq<i32>, roll: int)
    requires
        weights_nonnegative(w),
        total_weight_of(w) > 0,
        0 <= roll,
    ensures
        0 <= spec_choose_obstacle(w, roll) < w.len(),
        w[spec_choose_obstacle(w, roll)] > 0,
{
    let t = roll % total_weight_of(w);
    lemma_first_exceeding_in_interval(w, t, 0);
    let r = first_exceeding(w, t, 0);
    assert(prefix_sum(w, r + 1) == prefix_sum(w, r) + w[r]);
}

/// The rolls below the total weight that choose kind `k`.
pub open spec fn rolls_choosing(w: Seq<i32>, k: int) -> Set<int> {
    Set::new(|r: int| 0 <= r < total_weight_of(w) && spec_choose_obstacle(w, r) == k)
}

/// Law (weighted choice): with non-negative weights whose total is positive,
/// among the rolls 0 up to the total, exactly `w[k]` choose kind `k`: each
/// kind is chosen with probability `w[k] / total` for a uniform roll.
pub proof fn law_choice_count_equals_weight(w: Seq<i32>, k: int)
    requires
        weights_nonnegative(w),
        total_weight_of(w) > 0,
        0 <= k < w.len(),
    ensures
        rolls_choosing(w, k).finite(),
        rolls_choosing(w, k).len() == w[k],
{
    let t = total_weight_of(w);
    let lo = prefix_sum(w, k);
    let hi = prefix_sum(w, k + 1);
    assert(hi == lo + w[k]);
    lemma_prefix_monotone(w, 0, k);
    lemma_prefix_monotone(w, k + 1, w.len() as int);
    assert(prefix_sum(w, 0) == 0);
    assert forall|r: int| rolls_choosing(w, k).contains(r) <==> vstd::set_lib::set_int_range(
        lo,
        hi,
    ).contains(r) by {
        if 0 <= r < t {
            assert(r % t == r) by (nonlinear_arith)
                requires
                    0 <= r < t,
            ;
            law_choice_owns_interval(w, r, k);
        }
    }
    assert(rolls_choosing(w, k) =~= vstd::set_lib::set_int_range(lo, hi));
    vstd::set_lib::lemma_int_range(lo, hi);
}

/// Law (weighted choice): with non-negative weights whose sums fit in an
/// `i32`, every kind of positive weight is chosen by some 32-bit roll: the
/// roll equal to the running sum before it. So no kind of positive weight is
/// unreachable from the generator's draws.
pub proof fn law_every_weighted_kind_reachable(w: Seq<i32>, k: int)
    requires
        weights_nonnegative(w),
        prefix_sums_fit(w),
        0 <= k < w.len(),
        w[k] > 0,
    ensures
        0 <= prefix_sum(w, k) <= u32::MAX,
        spec_choose_obstacle(w, prefix_sum(w, k)) == k,
        exists|roll: int| 0 <= roll <= u32::MAX && spec_choose_obstacle(w, roll) == k,
{
    let t = total_weight_of(w);
    let r = prefix_sum(w, k);
    lemma_prefix_monotone(w, 0, k);
    lemma_prefix_monotone(w, k + 1, w.len() as int);
    assert(prefix_sum(w, 0) == 0);
    assert(prefix_sum(w, k + 1) == r + w[k]);
    assert(i32::MIN <= prefix_sum(w, k) <= i32::MAX);
    assert(r % t == r) by (nonlinear_arith)
        requires
            0 <= r < t,
    ;
    law_choice_owns_interval(w, r, k);
}

/// Law (spawn plan): with owl and tree scenes assigned, non-negative weights
/// whose sums fit, kind 0 of positive weight spawns an owl for some roll,
/// kind 1 of positive weight a still tree, and kind 2 of positive weight a
/// rotating tree; the plan follows the drawn roll, not the weights alone.
pub proof fn law_each_obstacle_plan_reachable(w: Seq<i32>, scenes: Seq<bool>, k: int)
    requires
        weights_nonnegative(w),
        prefix_sums_fit(w),
        0 <= k < w.len(),
        k <= 2,
        w[k] > 0,
        scenes.len() >= 2,
        scenes[0],
        scenes[1],
    ensures
        exists|roll: int|
            0 <= roll <= u32::MAX && #[trigger] spec_plan_obstacle(
                scenes,
                spec_choose_obstacle(w, roll),
            ) == (if k == 0 {
                ObstacleSpawnPlan::Owl { scene_index: 0 }
            } else {
                ObstacleSpawnPlan::Tree { scene_index: 1, rotating: k == 2 }
            }),
{
    law_every_weighted_kind_reachable(w, k);
    let roll = prefix_sum(w, k);
    assert(spec_choose_obstacle(w, roll) == k);
    assert(spec_plan_obstacle(scenes, spec_choose_obstacle(w, roll)) == (if k == 0 {
        ObstacleSpawnPlan::Owl { scene_index: 0 }
    } else {
        ObstacleSpawnPlan::Tree { scene_index: 1, rotating: k == 2 }
    }));
}

} // verus!
