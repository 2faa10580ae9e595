use vstd::prelude::*;
use crate::clock::{lemma_reading_after, reading_after, tick_counter, tick_span, TickCounter};
use crate::collision::{
    any_in_reach, bullet_collision, first_in_reach, kills, player_collision, struck, struck_enemies,
    PlayerFate, RESPAWN_X, RESPAWN_Y,
};
use crate::score::{Score, KILL_AWARD};
use crate::spawn::{fresh, spawn_enemy_schedule, spawns_at, EnemySeed, SURE_PERIOD};

verus! {

/// The state that the core owns: the tick clock and the score.
#[derive(Clone, Copy, Debug, PartialEq, Eq, Structural)]
pub struct Simulation {
    pub tick: TickCounter,
    pub score: Score,
}

/// What one fixed step decided, for the host to carry out in this order:
/// destroy bullets and enemies, move the player if it was caught,
/// integrate the motion of what is left, add the new enemies, and keep the
/// player on the playfield.
#[derive(Debug)]
pub struct StepOutcome {
    /// For each bullet the enemy that it hit, if any; such a bullet is
    /// destroyed.
    pub hits: Vec<Option<usize>>,
    /// For each enemy whether it is destroyed.
    pub destroyed: Vec<bool>,
    /// What became of the player.
    pub fate: PlayerFate,
    /// The enemies that appear.
    pub spawns: Vec<EnemySeed>,
}

/// For each enemy whether it is in the player's reach and was not hit by
/// a bullet: an enemy that a bullet destroyed takes no part in what
/// follows in the same step.
pub open spec fn live_near(player_near: Seq<bool>, hits: Seq<Option<usize>>) -> Seq<bool> {
    Seq::new(player_near.len(), |e: int| player_near[e] && !struck(hits, e))
}

/// Whether an enemy that survived the bullets is in the player's reach.
pub open spec fn caught(player_near: Seq<bool>, hits: Seq<Option<usize>>) -> bool {
    any_in_reach(live_near(player_near, hits))
}

/// A list of `len` entries, all of them `value`.
pub fn uniform(len: usize, value: bool) -> (list: Vec<bool>)
    ensures
        list.len() == len,
        forall|i: int| 0 <= i < len ==> #[trigger] list[i] == value,
{
    let mut list: Vec<bool> = Vec::new();
    let mut i: usize = 0;
    while i < len
        invariant
            i <= len,
            list.len() == i,
            forall|j: int| 0 <= j < i ==> #[trigger] list[j] == value,
        decreases len - i,
    {
        list.push(value);
        i += 1;
    }
    list
}

/// Strikes from `near` the enemies that `gone` marks.
pub fn without(near: &Vec<bool>, gone: &Vec<bool>) -> (left: Vec<bool>)
    requires
        gone.len() == near.len(),
    ensures
        left.len() == near.len(),
        forall|e: int| 0 <= e < near.len() ==> #[trigger] left[e] == (near[e] && !gone[e]),
{
    let mut left: Vec<bool> = Vec::new();
    let mut e: usize = 0;
    while e < near.len()
        invariant
            e <= near.len(),
            gone.len() == near.len(),
            left.len() == e,
            forall|i: int| 0 <= i < e ==> #[trigger] left[i] == (near[i] && !gone[i]),
        decreases near.len() - e,
    {
        left.push(near[e] && !gone[e]);
        e += 1;
    }
    left
}

/// A run of `steps` fixed steps that starts at tick zero and stays below
/// the span of the counter ends at the tick `steps`; where that is a
/// multiple of the sure period, the last step of the run brings at least
/// one enemy, however the draws come out.
pub proof fn lemma_run_ends_with_spawn(steps: nat, steady: bool, quick: bool, rapid: bool)
    requires
        steps < tick_span(),
    ensures
        reading_after(0, steps) == steps,
        steps % (SURE_PERIOD as nat) == 0 ==> spawns_at(
            TickCounter { inner: reading_after(0, steps) },
            steady,
            quick,
            rapid,
        ) >= 1,
{
    lemma_reading_after(0, steps);
}

impl Simulation {
    /// The state at the start: tick zero, score zero.
    pub fn new() -> (start: Simulation)
        ensures
            start.tick.inner == 0,
            start.score.0 == 0,
    {
        Simulation { tick: TickCounter::new(), score: Score::new() }
    }

    /// One fixed step: the clock advances, the bullets are resolved
    /// against the enemies, the player against the enemies that are left,
    /// and the spawn scheduler runs on the new tick and score.
    ///
    /// Row `b` of `bullet_near` tells for each enemy whether bullet `b`
    /// reaches it, and `player_near` tells for each enemy whether it
    /// reaches the player, both as the step begins and with the enemies in
    /// one order.
    pub fn fixed_step(&mut self, bullet_near: &Vec<Vec<bool>>, player_near: &Vec<bool>) -> (out:
        StepOutcome)
        requires
            old(self).score.0 + KILL_AWARD * kills(bullet_near@) <= u32::MAX,
        ensures
            final(self).tick.inner == old(self).tick.next(),
            out.hits.len() == bullet_near.len(),
            forall|b: int|
                0 <= b < bullet_near.len() ==> first_in_reach(bullet_near[b]@, #[trigger] out.hits[b]),
            out.destroyed.len() == player_near.len(),
            forall|e: int|
                0 <= e < player_near.len() ==> #[trigger] out.destroyed[e] == (caught(
                    player_near@,
                    out.hits@,
                ) || struck(out.hits@, e)),
            caught(player_near@, out.hits@) ==> out.fate == (PlayerFate::Respawn {
                x: RESPAWN_X,
                y: RESPAWN_Y,
            }) && final(self).score.0 == 0,
            !caught(player_near@, out.hits@) ==> out.fate == PlayerFate::Unharmed
                && final(self).score.0 == old(self).score.0 + KILL_AWARD * kills(bullet_near@),
            spawns_at(final(self).tick, false, false, false) <= out.spawns.len(),
            out.spawns.len() <= spawns_at(final(self).tick, true, true, true),
            forall|i: int| 0 <= i < out.spawns.len() ==> fresh(#[trigger] out.spawns[i]),
    {
        tick_counter(&mut self.tick);
        let hits = bullet_collision(bullet_near, &mut self.score);
        let hit_enemies = struck_enemies(&hits, player_near.len());
        let still_near = without(player_near, &hit_enemies);
        assert(still_near@ =~= live_near(player_near@, hits@));
        let fate = player_collision(&still_near, &mut self.score);
        let destroyed = match fate {
            PlayerFate::Respawn { .. } => uniform(player_near.len(), true),
            PlayerFate::Unharmed => hit_enemies,
        };
        let spawns = spawn_enemy_schedule(&self.tick, &self.score);
        StepOutcome { hits, destroyed, fate, spawns }
    }
}

} // verus!
