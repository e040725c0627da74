//! Static court geometry.
//!
//! A court with goal openings becomes four open polylines, all perfectly
//! elastic and attached to no body: two wall chains that leave a gap of
//! `goal_width` on each short side, and two three-sided goal boxes extending
//! outward by `goal_depth`. The origin is the court centre, `+x` points at
//! the right goal, `+y` up. Open chains keep the goal gaps passable.

use vstd::prelude::*;

use crate::state::Court;
use crate::state::Vec2;
use crate::state::WALL_RESTITUTION_CENTI;
use crate::state::court_valid;

verus! {

/// One static collision polyline: a connected open chain of segments.
#[derive(Debug)]
pub struct Chain {
    pub points: Vec<Vec2>,
    pub restitution_centi: i64,
}

/// Half a court extent: exact for the nonnegative dimensions of a valid court.
pub open spec fn half(v: i64) -> i64 {
    (v / 2) as i64
}

/// The top wall: from the left goal-gap boundary up and across the top edge,
/// back down to the right goal-gap boundary.
pub open spec fn top_wall(c: Court) -> Seq<Vec2> {
    let hw = half(c.width);
    let hh = half(c.height);
    let hg = half(c.goal_width);
    seq![
        Vec2 { x: (-hw) as i64, y: hg },
        Vec2 { x: (-hw) as i64, y: hh },
        Vec2 { x: hw, y: hh },
        Vec2 { x: hw, y: hg },
    ]
}

/// The bottom wall: the top wall mirrored below the horizontal axis.
pub open spec fn bottom_wall(c: Court) -> Seq<Vec2> {
    let hw = half(c.width);
    let hh = half(c.height);
    let hg = half(c.goal_width);
    seq![
        Vec2 { x: (-hw) as i64, y: (-hg) as i64 },
        Vec2 { x: (-hw) as i64, y: (-hh) as i64 },
        Vec2 { x: hw, y: (-hh) as i64 },
        Vec2 { x: hw, y: (-hg) as i64 },
    ]
}

/// The left goal box: three sides of a rectangle of depth `goal_depth`
/// attached at the left edge's gap, extending away from the court centre.
pub open spec fn left_goal(c: Court) -> Seq<Vec2> {
    let hw = half(c.width);
    let hg = half(c.goal_width);
    let outer = (hw + c.goal_depth) as i64;
    seq![
        Vec2 { x: (-hw) as i64, y: hg },
        Vec2 { x: (-outer) as i64, y: hg },
        Vec2 { x: (-outer) as i64, y: (-hg) as i64 },
        Vec2 { x: (-hw) as i64, y: (-hg) as i64 },
    ]
}

/// The right goal box: the left goal box mirrored across the vertical axis.
pub open spec fn right_goal(c: Court) -> Seq<Vec2> {
    let hw = half(c.width);
    let hg = half(c.goal_width);
    let outer = (hw + c.goal_depth) as i64;
    seq![
        Vec2 { x: hw, y: hg },
        Vec2 { x: outer, y: hg },
        Vec2 { x: outer, y: (-hg) as i64 },
        Vec2 { x: hw, y: (-hg) as i64 },
    ]
}

/// The four wall chains of a court, in a fixed order, all with the wall
/// restitution and none closed into a loop.
pub open spec fn chains_of_court(c: Court, chains: Seq<Chain>) -> bool {
    &&& chains.len() == 4
    &&& chains[0].points@ == top_wall(c)
    &&& chains[1].points@ == bottom_wall(c)
    &&& chains[2].points@ == left_goal(c)
    &&& chains[3].points@ == right_goal(c)
    &&& forall|i: int| 0 <= i < 4 ==> (#[trigger] chains[i].restitution_centi)
        == WALL_RESTITUTION_CENTI
}

/// Open-chain law: whenever the court and its goal openings have any width
/// at all, no wall chain closes into a loop — each one's endpoints differ,
/// so the goal gaps stay passable.
pub proof fn lemma_chains_open(c: Court, chains: Seq<Chain>)
    requires
        chains_of_court(c, chains),
        c.width >= 2,
        c.goal_width >= 2,
    ensures
        forall|i: int| 0 <= i < chains.len() ==> (#[trigger] chains[i].points@).first()
            != chains[i].points@.last(),
{
    assert(half(c.width) >= 1);
    assert(half(c.goal_width) >= 1);
    assert(chains[0].points@.first() != chains[0].points@.last());
    assert(chains[1].points@.first() != chains[1].points@.last());
    assert(chains[2].points@.first() != chains[2].points@.last());
    assert(chains[3].points@.first() != chains[3].points@.last());
}

/// Builds the four static wall chains of a valid court.
pub fn court_chains(c: &Court) -> (r: Vec<Chain>)
    requires
        court_valid(*c),
    ensures
        chains_of_court(*c, r@),
{
    let half_w: i64 = c.width / 2;
    let half_h: i64 = c.height / 2;
    let half_g: i64 = c.goal_width / 2;
    let outer: i64 = half_w + c.goal_depth;
    let neg_w: i64 = -half_w;
    let neg_h: i64 = -half_h;
    let neg_g: i64 = -half_g;
    let neg_outer: i64 = -outer;

    let top: Vec<Vec2> = vec![
        Vec2 { x: neg_w, y: half_g },
        Vec2 { x: neg_w, y: half_h },
        Vec2 { x: half_w, y: half_h },
        Vec2 { x: half_w, y: half_g },
    ];
    let bottom: Vec<Vec2> = vec![
        Vec2 { x: neg_w, y: neg_g },
        Vec2 { x: neg_w, y: neg_h },
        Vec2 { x: half_w, y: neg_h },
        Vec2 { x: half_w, y: neg_g },
    ];
    let left: Vec<Vec2> = vec![
        Vec2 { x: neg_w, y: half_g },
        Vec2 { x: neg_outer, y: half_g },
        Vec2 { x: neg_outer, y: neg_g },
        Vec2 { x: neg_w, y: neg_g },
    ];
    let right: Vec<Vec2> = vec![
        Vec2 { x: half_w, y: half_g },
        Vec2 { x: outer, y: half_g },
        Vec2 { x: outer, y: neg_g },
        Vec2 { x: half_w, y: neg_g },
    ];

    proof {
        assert(top@ =~= top_wall(*c));
        assert(bottom@ =~= bottom_wall(*c));
        assert(left@ =~= left_goal(*c));
        assert(right@ =~= right_goal(*c));
    }

    let r: Vec<Chain> = vec![
        Chain { points: top, restitution_centi: WALL_RESTITUTION_CENTI },
        Chain { points: bottom, restitution_centi: WALL_RESTITUTION_CENTI },
        Chain { points: left, restitution_centi: WALL_RESTITUTION_CENTI },
        Chain { points: right, restitution_centi: WALL_RESTITUTION_CENTI },
    ];
    r
}

} // verus!
