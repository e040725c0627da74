//! Dynamic-entity construction: ball and player descriptors become
//! simulation bodies with input-driven velocity overrides.
//!
//! Each entity owns one dynamic body at its snapshot position and one
//! circular shape of its snapshot radius. Exactly one override applies:
//! a nonzero `shoot_dir` replaces the ball's whole velocity, and each
//! nonzero `movement` axis replaces that axis of a player's velocity —
//! two independent per-axis assignments, never a combined vector replace,
//! so an untouched axis keeps its input value.

use vstd::prelude::*;

use crate::state::BALL_DAMPING_CENTI;
use crate::state::BODY_RESTITUTION_CENTI;
use crate::state::Ball;
use crate::state::K_MOVE;
use crate::state::K_SHOOT;
use crate::state::PLAYER_DAMPING_CENTI;
use crate::state::Player;
use crate::state::Vec2;
use crate::state::ball_valid;
use crate::state::player_valid;

verus! {

/// Everything the engine needs to create one dynamic entity: a body at
/// `position` with `lin_vel` (overrides already applied) and linear damping
/// `damping_centi`, carrying one circular shape of radius `radius` with
/// restitution `restitution_centi`.
#[derive(Clone, Copy, PartialEq, Eq, Structural, Debug)]
pub struct BodyDesc {
    pub position: Vec2,
    pub lin_vel: Vec2,
    pub radius: i64,
    pub damping_centi: i64,
    pub restitution_centi: i64,
}

/// `d` is the ball's simulation body: position, radius, ball damping and
/// shape restitution taken from the snapshot, and the velocity replaced by
/// `shoot_dir * K_SHOOT` exactly when `shoot_dir` is nonzero.
pub open spec fn is_ball_body(b: Ball, d: BodyDesc) -> bool {
    &&& d.position == b.position
    &&& if b.shoot_dir.is_zero() {
        d.lin_vel == b.lin_vel
    } else {
        d.lin_vel.x == b.shoot_dir.x * K_SHOOT && d.lin_vel.y == b.shoot_dir.y * K_SHOOT
    }
    &&& d.radius == b.scale
    &&& d.damping_centi == BALL_DAMPING_CENTI
    &&& d.restitution_centi == BODY_RESTITUTION_CENTI
}

/// `d` is the player's simulation body: position, radius, player damping and
/// shape restitution taken from the snapshot, and each velocity axis replaced
/// by `movement * K_MOVE` exactly when that movement axis is nonzero.
pub open spec fn is_player_body(p: Player, d: BodyDesc) -> bool {
    &&& d.position == p.position
    &&& d.lin_vel.x == (if p.movement.x != 0 {
        p.movement.x * K_MOVE
    } else {
        p.lin_vel.x as int
    })
    &&& d.lin_vel.y == (if p.movement.y != 0 {
        p.movement.y * K_MOVE
    } else {
        p.lin_vel.y as int
    })
    &&& d.radius == p.scale
    &&& d.damping_centi == PLAYER_DAMPING_CENTI
    &&& d.restitution_centi == BODY_RESTITUTION_CENTI
}

/// Builds the ball's simulation body, applying the shoot override.
pub fn ball_body(b: &Ball) -> (d: BodyDesc)
    requires
        ball_valid(*b),
    ensures
        is_ball_body(*b, d),
{
    let lin_vel = if b.shoot_dir.x != 0 || b.shoot_dir.y != 0 {
        Vec2 { x: b.shoot_dir.x * K_SHOOT, y: b.shoot_dir.y * K_SHOOT }
    } else {
        b.lin_vel
    };
    BodyDesc {
        position: b.position,
        lin_vel,
        radius: b.scale,
        damping_centi: BALL_DAMPING_CENTI,
        restitution_centi: BODY_RESTITUTION_CENTI,
    }
}

/// Builds one player's simulation body, applying the two independent
/// per-axis movement overrides.
pub fn player_body(p: &Player) -> (d: BodyDesc)
    requires
        player_valid(*p),
    ensures
        is_player_body(*p, d),
{
    let vx: i64 = if p.movement.x != 0 {
        p.movement.x * K_MOVE
    } else {
        p.lin_vel.x
    };
    let vy: i64 = if p.movement.y != 0 {
        p.movement.y * K_MOVE
    } else {
        p.lin_vel.y
    };
    BodyDesc {
        position: p.position,
        lin_vel: Vec2 { x: vx, y: vy },
        radius: p.scale,
        damping_centi: PLAYER_DAMPING_CENTI,
        restitution_centi: BODY_RESTITUTION_CENTI,
    }
}

} // verus!
