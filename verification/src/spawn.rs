use rand::Rng;
use vstd::prelude::*;
use crate::clock::TickCounter;
use crate::score::Score;

verus! {

/// A new enemy appears at a horizontal position drawn uniformly from
/// `SPAWN_LEFT` (included) to `SPAWN_RIGHT` (excluded).
pub const SPAWN_LEFT: u32 = 12;

pub const SPAWN_RIGHT: u32 = 244;

/// The height at which a new enemy appears.
pub const SPAWN_HEIGHT: u32 = 380;

/// The mass of a new enemy.
pub const ENEMY_MASS: u32 = 1;

/// Phases run from zero up to this number, which is left out.
pub const PHASE_SPAN: u32 = 60;

/// Every so many ticks an enemy appears for certain.
pub const SURE_PERIOD: u32 = 240;

/// Every so many ticks an enemy appears with a fixed chance, of
/// `STEADY_CHANCE` in `STEADY_CHANCE_OUT_OF`.
pub const STEADY_PERIOD: u32 = 120;

pub const STEADY_CHANCE: u32 = 7;

pub const STEADY_CHANCE_OUT_OF: u32 = 10;

/// Every so many ticks an enemy appears with a chance that grows by
/// `QUICK_RATE` in `CHANCE_OUT_OF` for each point of the score.
pub const QUICK_PERIOD: u32 = 40;

pub const QUICK_RATE: u32 = 3;

/// Every so many ticks an enemy appears with a chance that grows by
/// `RAPID_RATE` in `CHANCE_OUT_OF` for each point of the score.
pub const RAPID_PERIOD: u32 = 13;

pub const RAPID_RATE: u32 = 1;

/// Chances that depend on the score are counted in parts of this number.
pub const CHANCE_OUT_OF: u32 = 10000;

/// No chance that depends on the score is lower than this many parts or
/// higher than `CHANCE_MOST`.
pub const CHANCE_LEAST: u32 = 10;

pub const CHANCE_MOST: u32 = 9990;

/// A new enemy, as far as the core fixes it. The host draws the horizontal
/// position itself, uniformly from `x_from` (included) to `x_below`
/// (excluded), and puts no force on the enemy.
#[derive(Clone, Copy, Debug, PartialEq, Eq, Structural)]
pub struct EnemySeed {
    /// Lower end of the horizontal positions, included.
    pub x_from: u32,
    /// Upper end of the horizontal positions, excluded.
    pub x_below: u32,
    /// The height at which the enemy appears.
    pub y: u32,
    /// The velocity to the right.
    pub velocity_x: i32,
    /// The velocity upwards.
    pub velocity_y: i32,
    /// The mass.
    pub mass: u32,
    /// Offset of the enemy's sway, below `PHASE_SPAN`.
    pub phase: u32,
}

/// The new enemy with the phase `phase`: it appears at the height
/// `SPAWN_HEIGHT`, between `SPAWN_LEFT` and `SPAWN_RIGHT`, at rest and with
/// the mass `ENEMY_MASS`.
pub open spec fn seed_of(phase: u32) -> EnemySeed {
    EnemySeed {
        x_from: SPAWN_LEFT,
        x_below: SPAWN_RIGHT,
        y: SPAWN_HEIGHT,
        velocity_x: 0,
        velocity_y: 0,
        mass: ENEMY_MASS,
        phase,
    }
}

/// Whether `seed` is a new enemy as the scheduler makes them: everything
/// but its phase is fixed, and its phase is below `PHASE_SPAN`.
pub open spec fn fresh(seed: EnemySeed) -> bool {
    seed.phase < PHASE_SPAN && seed == seed_of(seed.phase)
}

/// The chance, in parts of `CHANCE_OUT_OF`, of a spawn whose chance grows
/// by `rate` parts with each point: `rate * score`, held between
/// `CHANCE_LEAST` and `CHANCE_MOST`.
pub open spec fn chance_parts(rate: u32, score: u32) -> int {
    let raw = rate as int * score as int;
    if raw < CHANCE_LEAST {
        CHANCE_LEAST as int
    } else if raw > CHANCE_MOST {
        CHANCE_MOST as int
    } else {
        raw
    }
}

/// One if the condition holds, else zero.
pub open spec fn one_if(fires: bool) -> int {
    if fires {
        1
    } else {
        0
    }
}

/// The number of enemies that appear at the reading `tick` when the three
/// draws came out as `steady`, `quick` and `rapid`: one for each period
/// that divides the reading and whose draw, if it has one, succeeded.
pub open spec fn spawns_at(tick: TickCounter, steady: bool, quick: bool, rapid: bool) -> int {
    one_if(tick.due(SURE_PERIOD)) + one_if(tick.due(STEADY_PERIOD) && steady) + one_if(
        tick.due(QUICK_PERIOD) && quick,
    ) + one_if(tick.due(RAPID_PERIOD) && rapid)
}

/// A higher score never lowers the chance of a spawn.
pub proof fn lemma_chance_monotone(rate: u32, lower: u32, higher: u32)
    requires
        lower <= higher,
    ensures
        chance_parts(rate, lower) <= chance_parts(rate, higher),
{
    assert(rate * lower <= rate * higher) by (nonlinear_arith)
        requires
            lower <= higher,
            rate >= 0,
    ;
}

/// At every multiple of `SURE_PERIOD` an enemy appears, however the draws
/// come out, and at a tick that no period divides none does.
pub proof fn lemma_sure_spawn(tick: TickCounter, steady: bool, quick: bool, rapid: bool)
    ensures
        tick.due(SURE_PERIOD) ==> spawns_at(tick, steady, quick, rapid) >= 1,
        !tick.due(QUICK_PERIOD) && !tick.due(RAPID_PERIOD) ==> spawns_at(tick, steady, quick, rapid)
            == 0,
        0 <= spawns_at(tick, steady, quick, rapid) <= 4,
{
}

/// Draws a truth value from the thread's generator with
/// `rand::Rng::gen_ratio`, which panics on a zero denominator and on a
/// ratio above one. Nothing is claimed of the outcome but what the
/// generator documents for the two ratios that it decides without a draw:
/// a ratio of one always succeeds, a ratio of zero never does.
#[verifier::external_body]
fn draw_ratio(numerator: u32, denominator: u32) -> (hit: bool)
    requires
        denominator > 0,
        numerator <= denominator,
    ensures
        numerator == denominator ==> hit,
        numerator == 0 ==> !hit,
{
    rand::thread_rng().gen_ratio(numerator, denominator)
}

/// Draws an integer from the thread's generator with
/// `rand::Rng::gen_range` on the half-open range from `low` to `high`,
/// which panics on an empty range. Nothing is claimed of the value drawn
/// but that it lies in the range.
#[verifier::external_body]
fn draw_range(low: u32, high: u32) -> (n: u32)
    requires
        low < high,
    ensures
        low <= n < high,
{
    rand::thread_rng().gen_range(low..high)
}

/// The chance of a score-driven spawn, in parts of `CHANCE_OUT_OF`.
pub fn spawn_chance(rate: u32, score: &Score) -> (parts: u32)
    ensures
        parts == chance_parts(rate, score.0),
        CHANCE_LEAST <= parts <= CHANCE_MOST,
{
    assert(rate * score.0 <= 0xffff_ffff * 0xffff_ffff) by (nonlinear_arith)
        requires
            rate <= 0xffff_ffff,
            score.0 <= 0xffff_ffff,
    ;
    let raw: u64 = (rate as u64) * (score.0 as u64);
    if raw < CHANCE_LEAST as u64 {
        CHANCE_LEAST
    } else if raw > CHANCE_MOST as u64 {
        CHANCE_MOST
    } else {
        raw as u32
    }
}

/// Counts the enemies that appear at the current tick, given how the
/// three draws came out.
pub fn spawn_count(tick: &TickCounter, steady: bool, quick: bool, rapid: bool) -> (count: u32)
    ensures
        count == spawns_at(*tick, steady, quick, rapid),
{
    let mut count: u32 = 0;
    if tick.is_n(SURE_PERIOD) {
        count += 1;
    }
    if tick.is_n(STEADY_PERIOD) && steady {
        count += 1;
    }
    if tick.is_n(QUICK_PERIOD) && quick {
        count += 1;
    }
    if tick.is_n(RAPID_PERIOD) && rapid {
        count += 1;
    }
    count
}

/// The new enemy whose phase was drawn as `phase`.
pub fn enemy_seed(phase: u32) -> (seed: EnemySeed)
    requires
        phase < PHASE_SPAN,
    ensures
        seed == seed_of(phase),
        fresh(seed),
{
    EnemySeed {
        x_from: SPAWN_LEFT,
        x_below: SPAWN_RIGHT,
        y: SPAWN_HEIGHT,
        velocity_x: 0,
        velocity_y: 0,
        mass: ENEMY_MASS,
        phase,
    }
}

/// Makes one new enemy, with a phase drawn uniformly. Which phase comes
/// out is the generator's choice; everything else of the enemy is fixed.
pub fn spawn_enemy() -> (seed: EnemySeed)
    ensures
        seed.phase < PHASE_SPAN,
        seed == seed_of(seed.phase),
{
    enemy_seed(draw_range(0, PHASE_SPAN))
}

/// The spawn scheduler of the fixed step. Each of the four periods that
/// divides the current tick draws for itself, the first of them without a
/// draw, and each success gives one new enemy.
///
/// Whatever the draws give, an enemy appears at each multiple of
/// `SURE_PERIOD`, and no more enemies appear than periods divide the tick.
pub fn spawn_enemy_schedule(tick: &TickCounter, score: &Score) -> (seeds: Vec<EnemySeed>)
    ensures
        spawns_at(*tick, false, false, false) <= seeds.len() <= spawns_at(*tick, true, true, true),
        forall|i: int| 0 <= i < seeds.len() ==> fresh(#[trigger] seeds[i]),
{
    let steady = tick.is_n(STEADY_PERIOD) && draw_ratio(STEADY_CHANCE, STEADY_CHANCE_OUT_OF);
    let quick = tick.is_n(QUICK_PERIOD) && draw_ratio(spawn_chance(QUICK_RATE, score), CHANCE_OUT_OF);
    let rapid = tick.is_n(RAPID_PERIOD) && draw_ratio(spawn_chance(RAPID_RATE, score), CHANCE_OUT_OF);
    let count: u32 = spawn_count(tick, steady, quick, rapid);
    let mut seeds: Vec<EnemySeed> = Vec::new();
    let mut made: u32 = 0;
    while made < count
        invariant
            made <= count,
            seeds.len() == made,
            forall|i: int| 0 <= i < seeds.len() ==> fresh(#[trigger] seeds[i]),
        decreases count - made,
    {
        seeds.push(spawn_enemy());
        made += 1;
    }
    seeds
}

} // verus!
