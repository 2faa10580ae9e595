use vstd::prelude::*;
use crate::score::{Score, KILL_AWARD};

verus! {

/// A bullet destroys an enemy that is closer to it than this distance.
pub const BULLET_REACH: u32 = 15;

/// An enemy closer to the player than this distance costs the player the
/// score.
pub const PLAYER_REACH: u32 = 10;

/// Where the player is put after a collision with an enemy.
pub const RESPAWN_X: u32 = 128;

pub const RESPAWN_Y: u32 = 20;

/// What a collision scan decides for the player.
#[derive(Clone, Copy, Debug, PartialEq, Eq, Structural)]
pub enum PlayerFate {
    /// No enemy was in reach: nothing changes.
    Unharmed,
    /// An enemy was in reach: every enemy is destroyed and the player is
    /// moved to the point (`x`, `y`).
    Respawn { x: u32, y: u32 },
}

/// Whether some entry of `row` is in reach.
pub open spec fn any_in_reach(row: Seq<bool>) -> bool {
    exists|j: int| 0 <= j < row.len() && row[j]
}

/// Whether `hit` is the outcome of scanning `row` in order: the index of
/// its first entry that is in reach, or nothing where no entry is.
pub open spec fn first_in_reach(row: Seq<bool>, hit: Option<usize>) -> bool {
    match hit {
        Some(e) => e < row.len() && row[e as int] && forall|j: int| 0 <= j < e ==> !row[j],
        None => !any_in_reach(row),
    }
}

/// The number of bullets that have an enemy in reach. Row `b` of `near`
/// tells, enemy by enemy, whether bullet `b` reaches it.
pub open spec fn kills(near: Seq<Vec<bool>>) -> nat
    decreases near.len(),
{
    if near.len() == 0 {
        0
    } else {
        kills(near.drop_last()) + if any_in_reach(near.last()@) { 1nat } else { 0nat }
    }
}

/// The number of bullets that hit an enemy.
pub open spec fn scored(hits: Seq<Option<usize>>) -> nat
    decreases hits.len(),
{
    if hits.len() == 0 {
        0
    } else {
        scored(hits.drop_last()) + if hits.last().is_some() { 1nat } else { 0nat }
    }
}

/// Whether one of the first `upto` bullets hit enemy `e`.
pub open spec fn struck_within(hits: Seq<Option<usize>>, upto: int, e: int) -> bool {
    exists|b: int| 0 <= b < upto && #[trigger] hits[b] == Some(e as usize)
}

/// Whether some bullet hit enemy `e`.
pub open spec fn struck(hits: Seq<Option<usize>>, e: int) -> bool {
    struck_within(hits, hits.len() as int, e)
}

/// The bullets among the first `k` do not kill more than all of them.
pub proof fn lemma_kills_prefix(near: Seq<Vec<bool>>, k: int)
    requires
        0 <= k <= near.len(),
    ensures
        kills(near.take(k)) <= kills(near),
    decreases near.len(),
{
    if k == near.len() {
        assert(near.take(k) =~= near);
    } else {
        assert(near.drop_last().take(k) =~= near.take(k));
        lemma_kills_prefix(near.drop_last(), k);
    }
}

/// No bullet kills more than once: the kills are at most as many as the
/// bullets.
pub proof fn lemma_kills_bounded(near: Seq<Vec<bool>>)
    ensures
        kills(near) <= near.len(),
    decreases near.len(),
{
    if near.len() > 0 {
        lemma_kills_bounded(near.drop_last());
    }
}

/// Where every bullet is matched with the first enemy in its reach, an
/// enemy that some bullet hit was in the reach of that bullet.
pub proof fn lemma_struck_in_reach(near: Seq<Vec<bool>>, hits: Seq<Option<usize>>, e: int)
    requires
        hits.len() == near.len(),
        forall|b: int| 0 <= b < near.len() ==> first_in_reach(near[b]@, #[trigger] hits[b]),
        0 <= e <= usize::MAX,
        struck(hits, e),
    ensures
        exists|b: int| 0 <= b < near.len() && e < (#[trigger] near[b])@.len() && near[b]@[e],
{
    let b = choose|b: int| 0 <= b < hits.len() && #[trigger] hits[b] == Some(e as usize);
    assert(first_in_reach(near[b]@, hits[b]));
    assert(e < near[b]@.len() && near[b]@[e]);
}

/// Scans one row in order and returns the index of the first entry in
/// reach.
pub fn scan(row: &Vec<bool>) -> (hit: Option<usize>)
    ensures
        first_in_reach(row@, hit),
        hit.is_some() == any_in_reach(row@),
{
    let mut e: usize = 0;
    while e < row.len()
        invariant
            e <= row.len(),
            forall|j: int| 0 <= j < e ==> !row@[j],
        decreases row.len() - e,
    {
        if row[e] {
            return Some(e);
        }
        e += 1;
    }
    None
}

/// Tells whether the score can take the awards for all kills that `near`
/// holds, that is, whether `bullet_collision` may be called.
pub fn score_has_room(score: &Score, near: &Vec<Vec<bool>>) -> (room: bool)
    ensures
        room == (score.0 + KILL_AWARD * kills(near@) <= u32::MAX),
{
    let awards_left: u32 = (u32::MAX - score.0) / KILL_AWARD;
    let mut count: u32 = 0;
    let mut b: usize = 0;
    while b < near.len()
        invariant
            b <= near.len(),
            count == kills(near@.take(b as int)),
            count <= awards_left,
            awards_left == (u32::MAX - score.0) / 100,
        decreases near.len() - b,
    {
        let hit = scan(&near[b]);
        proof {
            assert(near@.take(b + 1).drop_last() =~= near@.take(b as int));
            assert(near@.take(b + 1).last() == near@[b as int]);
            lemma_kills_prefix(near@, b + 1);
        }
        if hit.is_some() {
            if count == awards_left {
                return false;
            }
            count += 1;
        }
        b += 1;
    }
    proof {
        assert(near@.take(near.len() as int) =~= near@);
    }
    true
}

/// Resolves the bullets against the enemies. Row `b` of `near` tells for
/// each enemy, in the order in which the enemies are scanned, whether it is
/// closer to bullet `b` than `BULLET_REACH`.
///
/// Each bullet is matched with the first enemy in its reach, if there is
/// one; the two are to be destroyed together, and the score grows by
/// `KILL_AWARD`. A bullet scores at most once. Every bullet is scanned
/// against the same enemies, so two bullets may hit the same enemy, and
/// each of them scores.
pub fn bullet_collision(near: &Vec<Vec<bool>>, score: &mut Score) -> (hits: Vec<Option<usize>>)
    requires
        old(score).0 + KILL_AWARD * kills(near@) <= u32::MAX,
    ensures
        hits.len() == near.len(),
        forall|b: int| 0 <= b < near.len() ==> first_in_reach(near[b]@, #[trigger] hits[b]),
        scored(hits@) == kills(near@),
        final(score).0 == old(score).0 + KILL_AWARD * scored(hits@),
{
    let mut hits: Vec<Option<usize>> = Vec::new();
    let mut b: usize = 0;
    while b < near.len()
        invariant
            b <= near.len(),
            hits.len() == b,
            forall|i: int| 0 <= i < b ==> first_in_reach(near[i]@, #[trigger] hits[i]),
            scored(hits@) == kills(near@.take(b as int)),
            score.0 == old(score).0 + KILL_AWARD * scored(hits@),
            old(score).0 + KILL_AWARD * kills(near@) <= u32::MAX,
        decreases near.len() - b,
    {
        let hit = scan(&near[b]);
        proof {
            assert(near@.take(b + 1).drop_last() =~= near@.take(b as int));
            assert(near@.take(b + 1).last() == near@[b as int]);
            assert(hits@.push(hit).drop_last() =~= hits@);
            lemma_kills_prefix(near@, b + 1);
        }
        if hit.is_some() {
            score.award();
        }
        hits.push(hit);
        b += 1;
    }
    proof {
        assert(near@.take(near.len() as int) =~= near@);
    }
    hits
}

/// Tells for each of `enemies` enemies whether some bullet hit it.
pub fn struck_enemies(hits: &Vec<Option<usize>>, enemies: usize) -> (mask: Vec<bool>)
    ensures
        mask.len() == enemies,
        forall|e: int| 0 <= e < enemies ==> #[trigger] mask[e] == struck(hits@, e),
{
    let mut mask: Vec<bool> = Vec::new();
    let mut e: usize = 0;
    while e < enemies
        invariant
            e <= enemies,
            mask.len() == e,
            forall|i: int| 0 <= i < e ==> !(#[trigger] mask[i]),
        decreases enemies - e,
    {
        mask.push(false);
        e += 1;
    }
    let mut b: usize = 0;
    while b < hits.len()
        invariant
            b <= hits.len(),
            mask.len() == enemies,
            forall|i: int| 0 <= i < enemies ==> #[trigger] mask[i] == struck_within(hits@, b as int, i),
        decreases hits.len() - b,
    {
        match hits[b] {
            Some(target) => {
                if target < enemies {
                    mask.set(target, true);
                }
            },
            None => {},
        }
        proof {
            assert forall|i: int| 0 <= i < enemies implies #[trigger] mask[i] == struck_within(
                hits@,
                b + 1,
                i,
            ) by {
                if struck_within(hits@, b as int, i) {
                    let w = choose|w: int| 0 <= w < b && #[trigger] hits@[w] == Some(i as usize);
                    assert(0 <= w < b + 1 && hits@[w] == Some(i as usize));
                } else if hits@[b as int] == Some(i as usize) {
                    assert(struck_within(hits@, b + 1, i));
                } else {
                    assert(!struck_within(hits@, b + 1, i));
                }
            }
        }
        b += 1;
    }
    mask
}

/// Resolves the player against the enemies. `near` tells for each enemy
/// whether it is closer to the player than `PLAYER_REACH`.
///
/// If any enemy is in reach, the score falls to zero, and the outcome asks
/// for all enemies to be destroyed and for the player to be moved to the
/// respawn point. Several enemies in reach give the same single outcome.
pub fn player_collision(near: &Vec<bool>, score: &mut Score) -> (fate: PlayerFate)
    ensures
        any_in_reach(near@) ==> fate == (PlayerFate::Respawn { x: RESPAWN_X, y: RESPAWN_Y })
            && final(score).0 == 0,
        !any_in_reach(near@) ==> fate == PlayerFate::Unharmed && final(score).0 == old(score).0,
{
    match scan(near) {
        Some(_) => {
            score.reset();
            PlayerFate::Respawn { x: RESPAWN_X, y: RESPAWN_Y }
        },
        None => PlayerFate::Unharmed,
    }
}

} // verus!
