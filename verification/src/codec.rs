//! Result decoding: engine read-back becomes the caller's state shape.
//!
//! After the single simulation advance, the engine reports one final
//! transform and velocity per dynamic body, in the body order of the plan:
//! ball first, then each player. Decoding preserves identity — `scale`
//! unchanged, player `id` sequence exactly the input sequence, in order —
//! and resets the one-shot input fields `shoot_dir` and `movement` to zero,
//! so no impulse request is ever echoed back.

use vstd::prelude::*;

use crate::state::Ball;
use crate::state::Player;
use crate::state::Vec2;

verus! {

/// The engine's read-back for one dynamic body: final position and
/// final linear velocity.
#[derive(Clone, Copy, PartialEq, Eq, Structural, Debug)]
pub struct BodyResult {
    pub position: Vec2,
    pub lin_vel: Vec2,
}

/// `out` is the decoded ball: transform and velocity from the engine,
/// radius passed through, shoot request reset.
pub open spec fn is_updated_ball(input: Ball, res: BodyResult, out: Ball) -> bool {
    &&& out.position == res.position
    &&& out.lin_vel == res.lin_vel
    &&& out.scale == input.scale
    &&& out.shoot_dir.is_zero()
}

/// `out` is the decoded player: transform and velocity from the engine,
/// identity and radius passed through, movement request reset.
pub open spec fn is_updated_player(input: Player, res: BodyResult, out: Player) -> bool {
    &&& out.id == input.id
    &&& out.scale == input.scale
    &&& out.position == res.position
    &&& out.lin_vel == res.lin_vel
    &&& out.movement.is_zero()
}

/// Decodes the engine's results back into the caller's state shape.
/// `results` holds one entry per dynamic body in plan order: the ball's at
/// index 0, then one per player in input order.
pub fn apply_results(ball: &Ball, players: &Vec<Player>, results: &Vec<BodyResult>) -> (r: (
    Ball,
    Vec<Player>,
))
    requires
        results@.len() == players@.len() + 1,
    ensures
        is_updated_ball(*ball, results@[0], r.0),
        r.1@.len() == players@.len(),
        forall|i: int| 0 <= i < players@.len() ==> is_updated_player(
            #[trigger] players@[i],
            results@[i + 1],
            r.1@[i],
        ),
{
    let out_ball = Ball {
        position: results[0].position,
        lin_vel: results[0].lin_vel,
        shoot_dir: Vec2::zero(),
        scale: ball.scale,
    };
    let n = players.len();
    let mut out_players: Vec<Player> = Vec::new();
    let mut i: usize = 0;
    while i < n
        invariant
            n == players@.len(),
            results@.len() == n + 1,
            0 <= i <= n,
            out_players@.len() == i,
            forall|j: int| 0 <= j < i ==> is_updated_player(
                #[trigger] players@[j],
                results@[j + 1],
                out_players@[j],
            ),
        decreases n - i,
    {
        let res = &results[i + 1];
        out_players.push(
            Player {
                id: players[i].id,
                position: res.position,
                lin_vel: res.lin_vel,
                movement: Vec2::zero(),
                scale: players[i].scale,
            },
        );
        i = i + 1;
    }
    (out_ball, out_players)
}

} // verus!
