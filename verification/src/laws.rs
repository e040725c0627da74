//! The library's stated laws, proved once and for all inputs.
//!
//! Each law is phrased over the relational contracts that the builders and
//! the codec establish, so it holds of every value those functions return.

use vstd::prelude::*;

use crate::body::BodyDesc;
use crate::body::is_ball_body;
use crate::body::is_player_body;
use crate::codec::BodyResult;
use crate::codec::is_updated_ball;
use crate::codec::is_updated_player;
use crate::state::Ball;
use crate::state::Court;
use crate::state::K_MOVE;
use crate::state::K_SHOOT;
use crate::state::Player;
use crate::world::WorldPlan;
use crate::world::is_world_plan;

verus! {

/// Pass-through law: decoding keeps the ball's radius, and the decoded
/// players carry exactly the input id sequence, in input order.
pub proof fn lemma_pass_through(
    ball: Ball,
    players: Seq<Player>,
    results: Seq<BodyResult>,
    out_ball: Ball,
    out_players: Seq<Player>,
)
    requires
        results.len() == players.len() + 1,
        is_updated_ball(ball, results[0], out_ball),
        out_players.len() == players.len(),
        forall|i: int| 0 <= i < players.len() ==> is_updated_player(
            #[trigger] players[i],
            results[i + 1],
            out_players[i],
        ),
    ensures
        out_ball.scale == ball.scale,
        out_players.map_values(|p: Player| p.id) == players.map_values(|p: Player| p.id),
        forall|i: int| 0 <= i < players.len() ==> (#[trigger] out_players[i]).scale
            == players[i].scale,
{
    assert forall|i: int| 0 <= i < players.len() implies (#[trigger] out_players[i]).scale
        == players[i].scale && out_players[i].id == players[i].id by {
        assert(is_updated_player(players[i], results[i + 1], out_players[i]));
    }
    assert(out_players.map_values(|p: Player| p.id) =~= players.map_values(|p: Player| p.id));
}

/// Impulse-reset law: decoding zeroes every one-shot input field — the
/// ball's shoot direction and every player's movement request.
pub proof fn lemma_impulse_reset(
    ball: Ball,
    players: Seq<Player>,
    results: Seq<BodyResult>,
    out_ball: Ball,
    out_players: Seq<Player>,
)
    requires
        results.len() == players.len() + 1,
        is_updated_ball(ball, results[0], out_ball),
        out_players.len() == players.len(),
        forall|i: int| 0 <= i < players.len() ==> is_updated_player(
            #[trigger] players[i],
            results[i + 1],
            out_players[i],
        ),
    ensures
        out_ball.shoot_dir.is_zero(),
        forall|i: int| 0 <= i < out_players.len() ==> (#[trigger] out_players[i]).movement.is_zero(),
{
    assert forall|i: int| 0 <= i < out_players.len() implies (
    #[trigger] out_players[i]).movement.is_zero() by {
        assert(is_updated_player(players[i], results[i + 1], out_players[i]));
    }
}

/// Shoot-override law: a nonzero shoot direction replaces the ball's whole
/// velocity with `shoot_dir * K_SHOOT` — replacement, not addition, whatever
/// the input velocity was.
pub proof fn lemma_shoot_override(b: Ball, d: BodyDesc)
    requires
        is_ball_body(b, d),
        !b.shoot_dir.is_zero(),
    ensures
        d.lin_vel.x == b.shoot_dir.x * K_SHOOT,
        d.lin_vel.y == b.shoot_dir.y * K_SHOOT,
{
}

/// Axis-independence law: a movement request on the x axis alone forces only
/// the x velocity to `movement.x * K_MOVE`; the y velocity enters the step
/// at its input value.
pub proof fn lemma_axis_independent_override(p: Player, d: BodyDesc)
    requires
        is_player_body(p, d),
        p.movement.x != 0,
        p.movement.y == 0,
    ensures
        d.lin_vel.x == p.movement.x * K_MOVE,
        d.lin_vel.y == p.lin_vel.y,
{
}

/// The mirrored axis-independence law: a movement request on the y axis
/// alone forces only the y velocity; the x velocity enters the step at its
/// input value.
pub proof fn lemma_axis_independent_override_y(p: Player, d: BodyDesc)
    requires
        is_player_body(p, d),
        p.movement.y != 0,
        p.movement.x == 0,
    ensures
        d.lin_vel.y == p.movement.y * K_MOVE,
        d.lin_vel.x == p.lin_vel.x,
{
}

/// Determinism of the ball's body: the snapshot pins it completely.
pub proof fn lemma_ball_body_deterministic(b: Ball, d1: BodyDesc, d2: BodyDesc)
    requires
        is_ball_body(b, d1),
        is_ball_body(b, d2),
    ensures
        d1 == d2,
{
}

/// Determinism of a player's body: the snapshot pins it completely.
pub proof fn lemma_player_body_deterministic(p: Player, d1: BodyDesc, d2: BodyDesc)
    requires
        is_player_body(p, d1),
        is_player_body(p, d2),
    ensures
        d1 == d2,
{
}

/// Determinism of world assembly: two plans for one snapshot hold the same
/// chains, point for point, and the same bodies.
pub proof fn lemma_world_plan_deterministic(
    b: Ball,
    c: Option<Court>,
    ps: Seq<Player>,
    w1: WorldPlan,
    w2: WorldPlan,
)
    requires
        is_world_plan(b, c, ps, w1),
        is_world_plan(b, c, ps, w2),
    ensures
        w1.chains@.len() == w2.chains@.len(),
        forall|i: int| 0 <= i < w1.chains@.len() ==> (#[trigger] w1.chains@[i]).points@
            == w2.chains@[i].points@ && w1.chains@[i].restitution_centi
            == w2.chains@[i].restitution_centi,
        w1.bodies@ == w2.bodies@,
{
    assert forall|i: int| 0 <= i < w1.bodies@.len() implies (#[trigger] w1.bodies@[i])
        == w2.bodies@[i] by {
        if i == 0 {
            lemma_ball_body_deterministic(b, w1.bodies@[0], w2.bodies@[0]);
        } else {
            assert(is_player_body(ps[i - 1], w1.bodies@[i]));
            assert(is_player_body(ps[i - 1], w2.bodies@[i]));
            lemma_player_body_deterministic(ps[i - 1], w1.bodies@[i], w2.bodies@[i]);
        }
    }
    assert(w1.bodies@ =~= w2.bodies@);
}

/// Determinism of decoding: one snapshot and one set of engine results pin
/// the decoded ball and the decoded player sequence completely.
pub proof fn lemma_decode_deterministic(
    ball: Ball,
    players: Seq<Player>,
    results: Seq<BodyResult>,
    out_ball1: Ball,
    out_players1: Seq<Player>,
    out_ball2: Ball,
    out_players2: Seq<Player>,
)
    requires
        results.len() == players.len() + 1,
        is_updated_ball(ball, results[0], out_ball1),
        is_updated_ball(ball, results[0], out_ball2),
        out_players1.len() == players.len(),
        out_players2.len() == players.len(),
        forall|i: int| 0 <= i < players.len() ==> is_updated_player(
            #[trigger] players[i],
            results[i + 1],
            out_players1[i],
        ),
        forall|i: int| 0 <= i < players.len() ==> is_updated_player(
            #[trigger] players[i],
            results[i + 1],
            out_players2[i],
        ),
    ensures
        out_ball1 == out_ball2,
        out_players1 == out_players2,
{
    assert(out_ball1.shoot_dir == out_ball2.shoot_dir);
    assert forall|i: int| 0 <= i < players.len() implies (#[trigger] out_players1[i])
        == out_players2[i] by {
        assert(is_updated_player(players[i], results[i + 1], out_players1[i]));
        assert(is_updated_player(players[i], results[i + 1], out_players2[i]));
        assert(out_players1[i].movement == out_players2[i].movement);
    }
    assert(out_players1 =~= out_players2);
}

} // verus!
