//! World assembly: one ephemeral simulation world per call.
//!
//! The snapshot is validated at the boundary, then static geometry and all
//! dynamic entities are assembled into a [`WorldPlan`]: everything the
//! external engine needs for exactly one fixed-timestep advance under zero
//! gravity. Bodies keep input order — the ball first, then each player —
//! which is the mapping used to re-associate engine results afterwards.

use vstd::prelude::*;

use crate::body::BodyDesc;
use crate::body::ball_body;
use crate::body::is_ball_body;
use crate::body::is_player_body;
use crate::body::player_body;
use crate::geometry::Chain;
use crate::geometry::chains_of_court;
use crate::geometry::court_chains;
use crate::state::Ball;
use crate::state::Court;
use crate::state::MAX_COORD;
use crate::state::Player;
use crate::state::StepError;
use crate::state::Vec2;
use crate::state::ball_error;
use crate::state::court_error;
use crate::state::input_error;
use crate::state::input_valid;
use crate::state::player_error;
use crate::state::player_valid;
use crate::state::players_error;

verus! {

/// The whole ephemeral world for one step: static chains and dynamic bodies,
/// bodies in input order with the ball at index 0.
#[derive(Debug)]
pub struct WorldPlan {
    pub chains: Vec<Chain>,
    pub bodies: Vec<BodyDesc>,
}

/// The court snapshot a borrowed optional court stands for.
pub open spec fn court_snapshot(c: Option<&Court>) -> Option<Court> {
    match c {
        Some(cc) => Some(*cc),
        None => None,
    }
}

/// The plan's static geometry: the four wall chains of the court when one is
/// given, and none at all otherwise (an unbounded plane).
pub open spec fn plan_chains_ok(c: Option<Court>, chains: Seq<Chain>) -> bool {
    match c {
        Some(cc) => chains_of_court(cc, chains),
        None => chains.len() == 0,
    }
}

/// The plan's dynamic bodies: one per entity in input order, the ball's body
/// first, then each player's.
pub open spec fn plan_bodies_ok(b: Ball, ps: Seq<Player>, bodies: Seq<BodyDesc>) -> bool {
    &&& bodies.len() == ps.len() + 1
    &&& is_ball_body(b, bodies[0])
    &&& forall|i: int| 0 <= i < ps.len() ==> is_player_body(#[trigger] ps[i], bodies[i + 1])
}

/// `w` is the world the snapshot describes.
pub open spec fn is_world_plan(b: Ball, c: Option<Court>, ps: Seq<Player>, w: WorldPlan) -> bool {
    &&& plan_chains_ok(c, w.chains@)
    &&& plan_bodies_ok(b, ps, w.bodies@)
}

/// A sequence of players with no error has only valid players.
pub proof fn lemma_players_error_none(ps: Seq<Player>)
    requires
        players_error(ps) is None,
    ensures
        forall|i: int| 0 <= i < ps.len() ==> player_valid(#[trigger] ps[i]),
    decreases ps.len(),
{
    if ps.len() > 0 {
        lemma_players_error_none(ps.drop_first());
        assert forall|i: int| 0 <= i < ps.len() implies player_valid(#[trigger] ps[i]) by {
            if i > 0 {
                assert(ps.drop_first()[i - 1] == ps[i]);
            }
        }
    }
}

/// A sequence of valid players has no error.
pub proof fn lemma_players_valid_no_error(ps: Seq<Player>)
    requires
        forall|i: int| 0 <= i < ps.len() ==> player_valid(#[trigger] ps[i]),
    ensures
        players_error(ps) is None,
    decreases ps.len(),
{
    if ps.len() > 0 {
        assert(player_valid(ps[0]));
        assert forall|i: int| 0 <= i < ps.drop_first().len() implies player_valid(
            #[trigger] ps.drop_first()[i],
        ) by {
            assert(ps.drop_first()[i] == ps[i + 1]);
        }
        lemma_players_valid_no_error(ps.drop_first());
    }
}

/// The boundary accepts a snapshot exactly when it is valid: no reported
/// error means a valid ball, a valid court when one is given, and only
/// valid players — and the other way round.
pub proof fn lemma_input_valid_iff_no_error(b: Ball, c: Option<Court>, ps: Seq<Player>)
    ensures
        input_valid(b, c, ps) <==> input_error(b, c, ps) is None,
{
    if input_error(b, c, ps) is None {
        lemma_players_error_none(ps);
    }
    if input_valid(b, c, ps) {
        lemma_players_valid_no_error(ps);
    }
}

/// Both components lie within the accepted magnitude bound.
fn in_range_check(v: &Vec2) -> (r: bool)
    ensures
        r == v.in_range(),
{
    -MAX_COORD <= v.x && v.x <= MAX_COORD && -MAX_COORD <= v.y && v.y <= MAX_COORD
}

/// Checks a snapshot at the boundary, before any simulation entity is built:
/// reports exactly the first error in checking order — ball, court, then
/// each player in input order — and nothing on a valid snapshot.
pub fn validate(ball: &Ball, court: Option<&Court>, players: &Vec<Player>) -> (r: Option<
    StepError,
>)
    ensures
        r == input_error(*ball, court_snapshot(court), players@),
{
    if ball.scale <= 0 {
        return Some(StepError::NonPositiveRadius);
    }
    if !(in_range_check(&ball.position) && in_range_check(&ball.lin_vel) && in_range_check(
        &ball.shoot_dir,
    ) && ball.scale <= MAX_COORD) {
        return Some(StepError::OutOfRange);
    }
    match court {
        Some(c) => {
            if !(0 < c.width && 0 < c.height && 0 <= c.goal_width && c.goal_width <= c.height
                && 0 <= c.goal_depth) {
                return Some(StepError::DegenerateCourt);
            }
            if !(c.width <= MAX_COORD && c.height <= MAX_COORD && c.goal_depth <= MAX_COORD) {
                return Some(StepError::OutOfRange);
            }
        },
        None => {},
    }
    let n = players.len();
    let mut i: usize = 0;
    proof {
        assert(players@.skip(0) =~= players@);
    }
    while i < n
        invariant
            n == players@.len(),
            0 <= i <= n,
            players_error(players@.skip(i as int)) == players_error(players@),
            ball_error(*ball) is None,
            (match court_snapshot(court) {
                Some(cc) => court_error(cc) is None,
                None => true,
            }),
        decreases n - i,
    {
        let p = &players[i];
        let ghost rest = players@.skip(i as int);
        proof {
            assert(rest[0] == players@[i as int]);
        }
        if p.scale <= 0 {
            return Some(StepError::NonPositiveRadius);
        }
        if !(in_range_check(&p.position) && in_range_check(&p.lin_vel) && in_range_check(
            &p.movement,
        ) && p.scale <= MAX_COORD) {
            return Some(StepError::OutOfRange);
        }
        proof {
            assert(player_error(rest[0]) is None);
            assert(rest.drop_first() =~= players@.skip(i + 1));
        }
        i = i + 1;
    }
    proof {
        assert(players@.skip(n as int) =~= Seq::<Player>::empty());
    }
    None
}

/// Assembles the ephemeral world for one snapshot: validates the snapshot,
/// then builds the court chains (when a court is given) and one body per
/// entity in input order. Succeeds exactly on valid snapshots and otherwise
/// reports the boundary error.
pub fn build_world(ball: &Ball, court: Option<&Court>, players: &Vec<Player>) -> (r: Result<
    WorldPlan,
    StepError,
>)
    ensures
        r is Ok <==> input_valid(*ball, court_snapshot(court), players@),
        (r matches Ok(w) ==> is_world_plan(*ball, court_snapshot(court), players@, w)),
        (r matches Err(e) ==> Some(e) == input_error(*ball, court_snapshot(court), players@)),
{
    if let Some(e) = validate(ball, court, players) {
        proof {
            lemma_input_valid_iff_no_error(*ball, court_snapshot(court), players@);
        }
        return Err(e);
    }
    proof {
        lemma_input_valid_iff_no_error(*ball, court_snapshot(court), players@);
        lemma_players_error_none(players@);
    }
    let chains: Vec<Chain> = match court {
        Some(c) => court_chains(c),
        None => Vec::new(),
    };
    let mut bodies: Vec<BodyDesc> = Vec::new();
    bodies.push(ball_body(ball));
    let n = players.len();
    let mut i: usize = 0;
    while i < n
        invariant
            n == players@.len(),
            0 <= i <= n,
            bodies@.len() == i + 1,
            is_ball_body(*ball, bodies@[0]),
            forall|j: int| 0 <= j < i ==> is_player_body(#[trigger] players@[j], bodies@[j + 1]),
            forall|j: int| 0 <= j < n ==> player_valid(#[trigger] players@[j]),
        decreases n - i,
    {
        let d = player_body(&players[i]);
        bodies.push(d);
        i = i + 1;
    }
    Ok(WorldPlan { chains, bodies })
}

} // verus!
