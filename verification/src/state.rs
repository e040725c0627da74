//! Game-state snapshots and their validity rules.
//!
//! All coordinates, velocities and radii are fixed-point integers: the caller
//! picks a unit (say, thousandths of a metre) and every value in a snapshot is
//! a count of that unit. Working on exact integers keeps every rule of the
//! simulation setup — geometry, input overrides, result decoding — a closed
//! arithmetic statement.

use vstd::prelude::*;

verus! {

/// A nonzero shoot direction replaces the ball's velocity scaled by this factor.
pub const K_SHOOT: i64 = 18;

/// A nonzero movement axis replaces that axis of a player's velocity scaled by this factor.
pub const K_MOVE: i64 = 10;

/// Linear damping applied to the ball during a step, in hundredths.
/// Lower than a player's, so the ball coasts further per tick.
pub const BALL_DAMPING_CENTI: i64 = 50;

/// Linear damping applied to a player during a step, in hundredths.
pub const PLAYER_DAMPING_CENTI: i64 = 500;

/// Restitution of the circular shape attached to every dynamic body, in hundredths.
pub const BODY_RESTITUTION_CENTI: i64 = 90;

/// Restitution of the static court walls, in hundredths: perfectly elastic.
pub const WALL_RESTITUTION_CENTI: i64 = 100;

/// Largest magnitude accepted for any coordinate, velocity component, radius
/// or court dimension. Inputs beyond it are rejected at the boundary, which
/// keeps every derived quantity inside `i64`.
pub const MAX_COORD: i64 = 0x100_0000_0000;

/// A two-dimensional vector of fixed-point components.
#[derive(Clone, Copy, PartialEq, Eq, Structural, Debug)]
pub struct Vec2 {
    pub x: i64,
    pub y: i64,
}

impl Vec2 {
    /// Both components are zero.
    pub open spec fn is_zero(self) -> bool {
        self.x == 0 && self.y == 0
    }

    /// Both components lie within the accepted magnitude bound.
    pub open spec fn in_range(self) -> bool {
        -MAX_COORD <= self.x <= MAX_COORD && -MAX_COORD <= self.y <= MAX_COORD
    }

    /// The zero vector, used to reset one-shot input fields.
    pub fn zero() -> (r: Vec2)
        ensures
            r.is_zero(),
    {
        Vec2 { x: 0, y: 0 }
    }
}

/// The ball's snapshot: recreated each call, never kept across calls.
/// `shoot_dir` is a one-shot impulse request, zero when unused.
#[derive(Clone, Copy, PartialEq, Eq, Structural, Debug)]
pub struct Ball {
    pub position: Vec2,
    pub lin_vel: Vec2,
    pub shoot_dir: Vec2,
    pub scale: i64,
}

/// One player character's snapshot. `id` must round-trip unchanged.
/// `movement` is a per-axis one-shot override request, zero on an untouched axis.
#[derive(Clone, Copy, PartialEq, Eq, Structural, Debug)]
pub struct Player {
    pub id: i32,
    pub position: Vec2,
    pub lin_vel: Vec2,
    pub movement: Vec2,
    pub scale: i64,
}

/// Court extent and goal openings, used only to derive static collision
/// geometry; never mutated or returned.
#[derive(Clone, Copy, PartialEq, Eq, Structural, Debug)]
pub struct Court {
    pub width: i64,
    pub height: i64,
    pub goal_width: i64,
    pub goal_depth: i64,
}

/// Why a snapshot was rejected before any simulation entity was built.
#[derive(Clone, Copy, PartialEq, Eq, Structural, Debug)]
pub enum StepError {
    /// A ball or player radius is zero or negative.
    NonPositiveRadius,
    /// Court dimensions cannot describe a court: a non-positive extent,
    /// a negative opening or depth, or a goal wider than the court side.
    DegenerateCourt,
    /// Some magnitude exceeds `MAX_COORD`.
    OutOfRange,
}

/// A valid ball: finite-range vectors and a positive, bounded radius.
pub open spec fn ball_valid(b: Ball) -> bool {
    &&& b.position.in_range()
    &&& b.lin_vel.in_range()
    &&& b.shoot_dir.in_range()
    &&& 0 < b.scale <= MAX_COORD
}

/// A valid player: finite-range vectors and a positive, bounded radius.
pub open spec fn player_valid(p: Player) -> bool {
    &&& p.position.in_range()
    &&& p.lin_vel.in_range()
    &&& p.movement.in_range()
    &&& 0 < p.scale <= MAX_COORD
}

/// A valid court: positive bounded extent, goal opening no wider than the
/// side it sits in, outward depth not negative.
pub open spec fn court_valid(c: Court) -> bool {
    &&& 0 < c.width <= MAX_COORD
    &&& 0 < c.height <= MAX_COORD
    &&& 0 <= c.goal_width <= c.height
    &&& 0 <= c.goal_depth <= MAX_COORD
}

/// The whole snapshot is accepted: ball, court (when present) and every player.
pub open spec fn input_valid(b: Ball, c: Option<Court>, ps: Seq<Player>) -> bool {
    &&& ball_valid(b)
    &&& match c {
        Some(cc) => court_valid(cc),
        None => true,
    }
    &&& forall|i: int| 0 <= i < ps.len() ==> player_valid(#[trigger] ps[i])
}

/// The error reported for the ball, when any: a bad radius is reported
/// before an out-of-range magnitude.
pub open spec fn ball_error(b: Ball) -> Option<StepError> {
    if b.scale <= 0 {
        Some(StepError::NonPositiveRadius)
    } else if !(b.position.in_range() && b.lin_vel.in_range() && b.shoot_dir.in_range()
        && b.scale <= MAX_COORD) {
        Some(StepError::OutOfRange)
    } else {
        None
    }
}

/// The error reported for a court, when any: a degenerate shape is reported
/// before an out-of-range magnitude.
pub open spec fn court_error(c: Court) -> Option<StepError> {
    if !(0 < c.width && 0 < c.height && 0 <= c.goal_width && c.goal_width <= c.height
        && 0 <= c.goal_depth) {
        Some(StepError::DegenerateCourt)
    } else if !(c.width <= MAX_COORD && c.height <= MAX_COORD && c.goal_depth <= MAX_COORD) {
        Some(StepError::OutOfRange)
    } else {
        None
    }
}

/// The error reported for one player, when any.
pub open spec fn player_error(p: Player) -> Option<StepError> {
    if p.scale <= 0 {
        Some(StepError::NonPositiveRadius)
    } else if !(p.position.in_range() && p.lin_vel.in_range() && p.movement.in_range()
        && p.scale <= MAX_COORD) {
        Some(StepError::OutOfRange)
    } else {
        None
    }
}

/// The first player error in input order, when any.
pub open spec fn players_error(ps: Seq<Player>) -> Option<StepError>
    decreases ps.len(),
{
    if ps.len() == 0 {
        None
    } else if player_error(ps[0]) is Some {
        player_error(ps[0])
    } else {
        players_error(ps.drop_first())
    }
}

/// The error the boundary reports for a snapshot, when any: the ball is
/// checked first, then the court, then each player in input order.
pub open spec fn input_error(b: Ball, c: Option<Court>, ps: Seq<Player>) -> Option<StepError> {
    if ball_error(b) is Some {
        ball_error(b)
    } else if (match c {
        Some(cc) => court_error(cc) is Some,
        None => false,
    }) {
        court_error(c->0)
    } else {
        players_error(ps)
    }
}

} // verus!
