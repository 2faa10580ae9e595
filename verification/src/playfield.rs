use vstd::prelude::*;

verus! {

/// The player stays between zero and this coordinate horizontally.
pub const FIELD_WIDTH: u32 = 256;

/// The player stays between zero and this coordinate vertically.
pub const FIELD_HEIGHT: u32 = 384;

/// An enemy lower than this height has left the screen.
pub const ENEMY_FLOOR: i32 = -10;

/// A bullet higher than this height has left the screen.
pub const BULLET_CEILING: i32 = 500;

/// Where a coordinate lies with respect to the playfield's extent along
/// one axis, which runs from zero to a limit, both included.
#[derive(Clone, Copy, Debug, PartialEq, Eq, Structural)]
pub enum Side {
    /// Lower than zero.
    Below,
    /// From zero to the limit.
    Within,
    /// Higher than the limit.
    Above,
}

/// What boundary enforcement does to the player along one axis.
#[derive(Clone, Copy, Debug, PartialEq, Eq, Structural)]
pub enum AxisFix {
    /// Position and velocity stay as they are.
    Keep,
    /// The velocity along the axis becomes zero and the coordinate becomes
    /// the one given.
    StopAt(u32),
}

/// The rule of boundary enforcement along one axis: a coordinate outside
/// the extent is put on the boundary that it crossed, one inside is left
/// alone.
pub open spec fn axis_fix(side: Side, limit: u32) -> AxisFix {
    match side {
        Side::Below => AxisFix::StopAt(0),
        Side::Within => AxisFix::Keep,
        Side::Above => AxisFix::StopAt(limit),
    }
}

/// The side on which a coordinate lies.
pub open spec fn side_of(coordinate: int, limit: u32) -> Side {
    if coordinate < 0 {
        Side::Below
    } else if coordinate > limit {
        Side::Above
    } else {
        Side::Within
    }
}

/// The coordinate after a fix was carried out.
pub open spec fn fixed(coordinate: int, fix: AxisFix) -> int {
    match fix {
        AxisFix::Keep => coordinate,
        AxisFix::StopAt(edge) => edge as int,
    }
}

/// The coordinate after boundary enforcement ran on it.
pub open spec fn bounded(coordinate: int, limit: u32) -> int {
    fixed(coordinate, axis_fix(side_of(coordinate, limit), limit))
}

/// Decides what happens to the player along one axis.
pub fn bound_axis(side: Side, limit: u32) -> (fix: AxisFix)
    ensures
        fix == axis_fix(side, limit),
{
    match side {
        Side::Below => AxisFix::StopAt(0),
        Side::Within => AxisFix::Keep,
        Side::Above => AxisFix::StopAt(limit),
    }
}

/// Boundary enforcement for the player: the fix along the horizontal axis,
/// whose limit is `FIELD_WIDTH`, and the one along the vertical axis, whose
/// limit is `FIELD_HEIGHT`.
pub fn player_bound(horizontal: Side, vertical: Side) -> (fix: (AxisFix, AxisFix))
    ensures
        fix.0 == axis_fix(horizontal, FIELD_WIDTH),
        fix.1 == axis_fix(vertical, FIELD_HEIGHT),
{
    (bound_axis(horizontal, FIELD_WIDTH), bound_axis(vertical, FIELD_HEIGHT))
}

/// Pruning of what has left the screen: whether an entity is destroyed.
/// An enemy goes when it is under `ENEMY_FLOOR`, a bullet when it is over
/// `BULLET_CEILING`; an entity that is both enemy and bullet, or neither,
/// stays.
pub fn despawn_oob(enemy: bool, bullet: bool, under_floor: bool, over_ceiling: bool) -> (gone: bool)
    ensures
        gone == ((enemy && !bullet && under_floor) || (bullet && !enemy && over_ceiling)),
{
    if enemy && !bullet {
        under_floor
    } else if bullet && !enemy {
        over_ceiling
    } else {
        false
    }
}

/// After boundary enforcement a whole-numbered coordinate lies within the
/// extent, wherever it was before.
pub proof fn lemma_bounded_within(coordinate: int, limit: u32)
    ensures
        0 <= bounded(coordinate, limit) <= limit,
        side_of(bounded(coordinate, limit), limit) == Side::Within,
{
}

/// Boundary enforcement leaves a whole-numbered coordinate within the
/// extent where it is, so running it a second time changes nothing.
pub proof fn lemma_bounded_idempotent(coordinate: int, limit: u32)
    ensures
        0 <= coordinate <= limit ==> axis_fix(side_of(coordinate, limit), limit) == AxisFix::Keep,
        0 <= coordinate <= limit ==> bounded(coordinate, limit) == coordinate,
        bounded(bounded(coordinate, limit), limit) == bounded(coordinate, limit),
{
}

} // verus!
