//! Laws that relate several transitions of the simulation, stated over the
//! same spec functions the transition contracts use.

use vstd::prelude::*;

use crate::grid::Direction;
use crate::grid::Position;
use crate::grid::chained;
use crate::grid::seg_adjacent;
use crate::grid::step_from;
use crate::state::GameState;
use crate::state::START_HEAD_Y;
use crate::state::START_TAIL_Y;
use crate::state::START_X;

verus! {

/// A surviving tick keeps the snake a chain. The hypotheses are exactly what
/// `GameState::advance` ensures of a tick that does not die: the head steps
/// one cell along the committed heading, every body segment takes its
/// predecessor's pre-move cell, and a grown tick appends one segment at the
/// pre-move tail cell.
pub proof fn lemma_tick_keeps_chain(pre: Seq<Position>, post: Seq<Position>, d: Direction)
    requires
        pre.len() >= 2,
        post.len() == pre.len() || post.len() == pre.len() + 1,
        post.len() == pre.len() + 1 ==> post[post.len() - 1] == pre[pre.len() - 1],
        post[0] == step_from(pre[0], d),
        forall|i: int| 1 <= i < pre.len() ==> post[i] == pre[i - 1],
        chained(pre),
    ensures
        chained(post),
{
    assert forall|i: int| 1 <= i < post.len() implies seg_adjacent(
        #[trigger] post[i - 1],
        post[i],
    ) by {
        if i == 1 {
            assert(post[0] == step_from(post[1], d));
        } else if i < pre.len() {
            assert(seg_adjacent(pre[(i - 1) - 1], pre[i - 1]));
        } else {
            assert(post[i] == pre[i - 1] && post[i - 1] == pre[(i - 1) - 1]);
            assert(seg_adjacent(pre[(i - 1) - 1], pre[i - 1]));
        }
    }
}

/// The canonical start snake is a chain.
pub proof fn lemma_start_state_chained(s: GameState)
    requires
        s.is_start_state(),
    ensures
        chained(s.segments@),
{
    assert(s.segments@[0] == step_from(s.segments@[1], Direction::Up));
}

/// The game-over reset is canonical: any two states produced by a reset are
/// identical in everything a reset writes, and they hold exactly the fixed
/// start configuration — length two, the fixed start cells, heading up, no
/// food. In particular two consecutive game overs, with no successful tick
/// between them, leave the same state twice.
pub proof fn lemma_reset_deterministic(a: GameState, b: GameState)
    requires
        a.is_start_state(),
        b.is_start_state(),
    ensures
        a.segments@ == b.segments@,
        a.direction == b.direction,
        a.buffer_direction == b.buffer_direction,
        a.food == b.food,
        a.segments@.len() == 2,
        a.segments@[0] == (Position { x: START_X, y: START_HEAD_Y }),
        a.segments@[1] == (Position { x: START_X, y: START_TAIL_Y }),
        a.direction == Direction::Up,
        a.buffer_direction == Direction::Up,
        a.food is None,
{
}

} // verus!
