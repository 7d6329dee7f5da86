//! The authoritative game state and the tick-driven transition logic:
//! input latching, movement, collision detection, eating, growth and the
//! game-over reset.

use vstd::prelude::*;

use crate::grid::Direction;
use crate::grid::Position;
use crate::grid::chained;
use crate::grid::contains_position;
use crate::grid::in_bounds;
use crate::grid::position_in_bounds;
use crate::grid::step_from;
use crate::grid::step_position;
use crate::laws::lemma_start_state_chained;
use crate::laws::lemma_tick_keeps_chain;

verus! {

/// x coordinate shared by both cells of a freshly spawned snake.
pub const START_X: i32 = 3;

/// y coordinate of a freshly spawned head.
pub const START_HEAD_Y: i32 = 3;

/// y coordinate of the cell behind a freshly spawned head.
pub const START_TAIL_Y: i32 = 2;

/// Smallest arena side that still contains the canonical start cells.
pub const MIN_ARENA_DIM: u32 = 4;

/// What one tick reported: the snake moved, the snake moved onto food and
/// grew, or the snake died and the state was reset.
#[derive(Clone, Copy, PartialEq, Eq, Structural, Debug)]
pub enum TickOutcome {
    Moved,
    Ate,
    Died,
}

/// The whole simulation state, passed explicitly into every transition so
/// that the state machine's inputs and outputs are visible.
pub struct GameState {
    /// Arena width in cells; fixed at construction.
    pub width: u32,
    /// Arena height in cells; fixed at construction.
    pub height: u32,
    /// The snake's cells, head first, tail last. Length never decreases
    /// within one life.
    pub segments: Vec<Position>,
    /// The heading actually applied at the most recent tick.
    pub direction: Direction,
    /// The heading requested by input, applied at the next tick.
    pub buffer_direction: Direction,
    /// The tail cell before the most recent movement; seeds a grown segment
    /// in the same tick and is overwritten by every movement.
    pub last_tail_position: Option<Position>,
    /// The live food cell, if any. At most one food exists.
    pub food: Option<Position>,
}

/// Arena sides large enough for the canonical start cells and small enough
/// that every cell coordinate fits an `i32`.
pub open spec fn wf_dims(width: u32, height: u32) -> bool {
    &&& MIN_ARENA_DIM <= width && width <= i32::MAX
    &&& MIN_ARENA_DIM <= height && height <= i32::MAX
}

impl GameState {
    /// The canonical start snake: length two, head above the tail.
    pub open spec fn start_segments() -> Seq<Position> {
        seq![
            Position { x: START_X, y: START_HEAD_Y },
            Position { x: START_X, y: START_TAIL_Y },
        ]
    }

    /// The snake part of the canonical start state: the two start cells,
    /// heading up, with up buffered.
    pub open spec fn has_start_snake(self) -> bool {
        &&& self.segments@ == Self::start_segments()
        &&& self.direction == Direction::Up
        &&& self.buffer_direction == Direction::Up
    }

    /// The canonical start state reached after a game over: the start snake
    /// and no live food.
    pub open spec fn is_start_state(self) -> bool {
        &&& self.has_start_snake()
        &&& self.food is None
    }

    /// Every snake cell lies on the arena.
    pub open spec fn all_in_bounds(self) -> bool {
        forall|i: int|
            0 <= i < self.segments@.len() ==> in_bounds(
                #[trigger] self.segments@[i],
                self.width,
                self.height,
            )
    }

    /// Well-formedness: valid arena sides, a snake of at least the start
    /// length, every snake cell on the arena, and any live food on the arena.
    pub open spec fn wf(self) -> bool {
        &&& wf_dims(self.width, self.height)
        &&& self.segments@.len() >= 2
        &&& self.all_in_bounds()
        &&& (self.food matches Some(f) ==> in_bounds(f, self.width, self.height))
    }

    /// The cell the head will occupy after the next tick commits the
    /// buffered heading.
    pub open spec fn next_head(self) -> Position {
        step_from(self.segments@[0], self.buffer_direction)
    }

    /// Whether the next tick dies: the committed step leaves the arena or
    /// lands on a cell of the pre-move snake.
    pub open spec fn next_tick_dies(self) -> bool {
        ||| !in_bounds(self.next_head(), self.width, self.height)
        ||| self.segments@.contains(self.next_head())
    }

    /// Whether the next tick eats: it survives and the committed step lands
    /// exactly on the live food.
    pub open spec fn next_tick_eats(self) -> bool {
        &&& !self.next_tick_dies()
        &&& self.food == Some(self.next_head())
    }

    /// A fresh simulation on a `width` by `height` arena, in the canonical
    /// start state. Rejects arenas too small to hold the start snake or too
    /// large for `i32` cell coordinates.
    pub fn new(width: u32, height: u32) -> (r: Option<GameState>)
        ensures
            r is Some <==> wf_dims(width, height),
            r matches Some(s) ==> s.wf() && s.is_start_state() && s.width == width && s.height
                == height && s.last_tail_position is None,
    {
        if width < MIN_ARENA_DIM || height < MIN_ARENA_DIM || width > i32::MAX as u32 || height
            > i32::MAX as u32 {
            return None;
        }
        let mut s = GameState {
            width,
            height,
            segments: Vec::new(),
            direction: Direction::Up,
            buffer_direction: Direction::Up,
            last_tail_position: None,
            food: None,
        };
        s.spawn_snake();
        Some(s)
    }

    /// Re-create the snake in its start configuration: length two at the
    /// fixed start cells, heading up. Food and the last tail cache are left
    /// as they are; `game_over` clears the food.
    pub fn spawn_snake(&mut self)
        requires
            wf_dims(old(self).width, old(self).height),
        ensures
            final(self).has_start_snake(),
            final(self).width == old(self).width,
            final(self).height == old(self).height,
            final(self).food == old(self).food,
            final(self).last_tail_position == old(self).last_tail_position,
            final(self).all_in_bounds(),
            final(self).segments@.len() == 2,
    {
        let mut segs: Vec<Position> = Vec::new();
        segs.push(Position { x: START_X, y: START_HEAD_Y });
        segs.push(Position { x: START_X, y: START_TAIL_Y });
        self.segments = segs;
        self.direction = Direction::Up;
        self.buffer_direction = Direction::Up;
        proof {
            assert(self.segments@ =~= Self::start_segments());
        }
    }

    /// Build a simulation state from explicit parts, so that any reachable
    /// configuration can be stated directly. Rejects exactly the states that
    /// are not well formed: bad arena sides, a snake shorter than two cells,
    /// a snake cell off the arena, or food off the arena. The last tail cache
    /// starts empty.
    pub fn from_parts(
        width: u32,
        height: u32,
        segments: Vec<Position>,
        direction: Direction,
        buffer_direction: Direction,
        food: Option<Position>,
    ) -> (r: Option<GameState>)
        ensures
            r matches Some(s) ==> ({
                &&& s.wf()
                &&& s.width == width
                &&& s.height == height
                &&& s.segments@ == segments@
                &&& s.direction == direction
                &&& s.buffer_direction == buffer_direction
                &&& s.food == food
                &&& s.last_tail_position is None
            }),
            r is Some <==> ({
                &&& wf_dims(width, height)
                &&& segments@.len() >= 2
                &&& forall|i: int|
                    0 <= i < segments@.len() ==> in_bounds(#[trigger] segments@[i], width, height)
                &&& (food matches Some(f) ==> in_bounds(f, width, height))
            }),
    {
        if width < MIN_ARENA_DIM || height < MIN_ARENA_DIM || width > i32::MAX as u32 || height
            > i32::MAX as u32 {
            return None;
        }
        if segments.len() < 2 {
            return None;
        }
        let mut i: usize = 0;
        #[verifier::loop_isolation(false)]
        while i < segments.len()
            invariant
                i <= segments@.len(),
                forall|j: int| 0 <= j < i ==> in_bounds(#[trigger] segments@[j], width, height),
            decreases segments@.len() - i,
        {
            if !position_in_bounds(segments[i], width, height) {
                return None;
            }
            i += 1;
        }
        match food {
            Some(f) => {
                if !position_in_bounds(f, width, height) {
                    return None;
                }
            },
            None => {},
        }
        Some(
            GameState {
                width,
                height,
                segments,
                direction,
                buffer_direction,
                last_tail_position: None,
                food,
            },
        )
    }

    /// Latch one frame's directional input. The pressed keys are mapped to a
    /// candidate heading with the fixed priority left, down, up, right (first
    /// pressed wins); with nothing pressed the candidate is the current
    /// heading. The candidate is buffered only if it is not the exact reverse
    /// of the current heading; otherwise the previous buffered value stays.
    /// Nothing but the buffered heading changes.
    pub fn snake_movement_input(&mut self, left: bool, down: bool, up: bool, right: bool)
        ensures
            final(self).buffer_direction == ({
                let cand = candidate_direction(left, down, up, right, old(self).direction);
                if cand != old(self).direction.spec_opposite() {
                    cand
                } else {
                    old(self).buffer_direction
                }
            }),
            ({
                let cand = candidate_direction(left, down, up, right, old(self).direction);
                cand == old(self).direction.spec_opposite() ==> final(self).buffer_direction
                    == old(self).buffer_direction
            }),
            final(self).direction == old(self).direction,
            final(self).segments@ == old(self).segments@,
            final(self).food == old(self).food,
            final(self).last_tail_position == old(self).last_tail_position,
            final(self).width == old(self).width,
            final(self).height == old(self).height,
    {
        let cand = if left {
            Direction::Left
        } else if down {
            Direction::Down
        } else if up {
            Direction::Up
        } else if right {
            Direction::Right
        } else {
            self.direction
        };
        if cand != self.direction.opposite() {
            self.buffer_direction = cand;
        }
    }

    /// One movement step: commit the buffered heading, move the head one
    /// cell, judge death against the pre-move snake and the arena bounds,
    /// shift every body segment onto its predecessor's pre-move cell, and
    /// record the pre-move tail cell. Death is reported, not yet handled:
    /// eating, growth and the reset are the caller's next steps.
    pub fn snake_movement(&mut self) -> (died: bool)
        requires
            old(self).wf(),
        ensures
            died == old(self).next_tick_dies(),
            final(self).direction == old(self).buffer_direction,
            final(self).buffer_direction == old(self).buffer_direction,
            final(self).segments@.len() == old(self).segments@.len(),
            final(self).segments@[0] == old(self).next_head(),
            forall|i: int|
                1 <= i < old(self).segments@.len() ==> final(self).segments@[i]
                    == old(self).segments@[i - 1],
            final(self).last_tail_position == Some(
                old(self).segments@[old(self).segments@.len() - 1],
            ),
            final(self).food == old(self).food,
            final(self).width == old(self).width,
            final(self).height == old(self).height,
            !died ==> final(self).wf(),
    {
        let ghost pre = self.segments@;
        self.direction = self.buffer_direction;
        let new_head = step_position(self.segments[0], self.direction);
        let died = !position_in_bounds(new_head, self.width, self.height) || contains_position(
            &self.segments,
            new_head,
        );
        let tail = self.segments[self.segments.len() - 1];
        let mut i: usize = self.segments.len() - 1;
        #[verifier::loop_isolation(false)]
        while i >= 1
            invariant
                self.segments@.len() == pre.len(),
                i < pre.len(),
                forall|j: int| 0 <= j <= i ==> self.segments@[j] == pre[j],
                forall|j: int| i < j < pre.len() ==> self.segments@[j] == pre[j - 1],
                self.direction == old(self).buffer_direction,
                self.buffer_direction == old(self).buffer_direction,
                self.food == old(self).food,
                self.last_tail_position == old(self).last_tail_position,
                self.width == old(self).width,
                self.height == old(self).height,
            decreases i,
        {
            let moved = self.segments[i - 1];
            self.segments.set(i, moved);
            i -= 1;
        }
        self.segments.set(0, new_head);
        self.last_tail_position = Some(tail);
        died
    }

    /// The eating check against the post-move head: if the live food sits
    /// exactly on the head, the food is destroyed and growth is signalled.
    pub fn snake_eating(&mut self) -> (ate: bool)
        requires
            old(self).segments@.len() >= 1,
        ensures
            ate == (old(self).food == Some(old(self).segments@[0])),
            ate ==> final(self).food is None,
            !ate ==> final(self).food == old(self).food,
            final(self).segments@ == old(self).segments@,
            final(self).direction == old(self).direction,
            final(self).buffer_direction == old(self).buffer_direction,
            final(self).last_tail_position == old(self).last_tail_position,
            final(self).width == old(self).width,
            final(self).height == old(self).height,
    {
        let ate = match self.food {
            Some(f) => {
                let head = self.segments[0];
                f == head
            },
            None => false,
        };
        if ate {
            self.food = None;
        }
        ate
    }

    /// Consume the growth signal: if it fired this tick, append one segment
    /// at the tail cell vacated by this tick's movement; otherwise nothing
    /// changes. The signal never carries over to another tick.
    pub fn snake_growth(&mut self, grew: bool)
        requires
            grew ==> old(self).last_tail_position is Some,
        ensures
            grew ==> (old(self).last_tail_position matches Some(t) && final(self).segments@
                == old(self).segments@.push(t)),
            !grew ==> final(self).segments@ == old(self).segments@,
            final(self).direction == old(self).direction,
            final(self).buffer_direction == old(self).buffer_direction,
            final(self).food == old(self).food,
            final(self).last_tail_position == old(self).last_tail_position,
            final(self).width == old(self).width,
            final(self).height == old(self).height,
    {
        if grew {
            match self.last_tail_position {
                Some(t) => self.segments.push(t),
                None => {
                    proof {
                        assert(false);
                    }
                },
            }
        }
    }

    /// Handle a game-over signal: if it fired, despawn the food and every
    /// snake cell and re-run the start spawn, leaving the canonical start
    /// state. Without the signal nothing changes.
    pub fn game_over(&mut self, died: bool)
        requires
            wf_dims(old(self).width, old(self).height),
        ensures
            died ==> final(self).is_start_state() && final(self).wf(),
            !died ==> ({
                &&& final(self).segments@ == old(self).segments@
                &&& final(self).direction == old(self).direction
                &&& final(self).buffer_direction == old(self).buffer_direction
                &&& final(self).food == old(self).food
            }),
            final(self).last_tail_position == old(self).last_tail_position,
            final(self).width == old(self).width,
            final(self).height == old(self).height,
    {
        if died {
            self.food = None;
            self.spawn_snake();
        }
    }

    /// One full tick, atomically: commit the buffered heading and move
    /// (`snake_movement`), reset on death (`game_over`), otherwise check food
    /// (`snake_eating`) and grow (`snake_growth`). Death wins over eating: a
    /// tick that dies never eats or grows.
    pub fn advance(&mut self) -> (outcome: TickOutcome)
        requires
            old(self).wf(),
        ensures
            final(self).wf(),
            final(self).width == old(self).width,
            final(self).height == old(self).height,
            outcome == TickOutcome::Died <==> old(self).next_tick_dies(),
            outcome == TickOutcome::Ate <==> old(self).next_tick_eats(),
            old(self).next_tick_dies() ==> final(self).is_start_state(),
            !old(self).next_tick_dies() ==> ({
                &&& final(self).direction == old(self).buffer_direction
                &&& final(self).buffer_direction == old(self).buffer_direction
                &&& final(self).segments@[0] == old(self).next_head()
                &&& forall|i: int|
                    1 <= i < old(self).segments@.len() ==> final(self).segments@[i]
                        == old(self).segments@[i - 1]
                &&& final(self).last_tail_position == Some(
                    old(self).segments@[old(self).segments@.len() - 1],
                )
            }),
            old(self).next_tick_eats() ==> ({
                &&& final(self).food is None
                &&& final(self).segments@.len() == old(self).segments@.len() + 1
                &&& final(self).segments@[final(self).segments@.len() - 1]
                    == old(self).segments@[old(self).segments@.len() - 1]
            }),
            !old(self).next_tick_dies() && !old(self).next_tick_eats() ==> ({
                &&& final(self).food == old(self).food
                &&& final(self).segments@.len() == old(self).segments@.len()
            }),
            chained(old(self).segments@) || old(self).next_tick_dies() ==> chained(
                final(self).segments@,
            ),
    {
        let died = self.snake_movement();
        self.game_over(died);
        if died {
            proof {
                lemma_start_state_chained(*self);
            }
            return TickOutcome::Died;
        }
        let ate = self.snake_eating();
        self.snake_growth(ate);
        proof {
            if chained(old(self).segments@) {
                lemma_tick_keeps_chain(
                    old(self).segments@,
                    self.segments@,
                    old(self).buffer_direction,
                );
            }
        }
        if ate {
            TickOutcome::Ate
        } else {
            TickOutcome::Moved
        }
    }
}

/// The input latch's key-to-heading mapping: the first pressed key in the
/// fixed priority order left, down, up, right wins; with none pressed the
/// current heading is kept.
pub open spec fn candidate_direction(
    left: bool,
    down: bool,
    up: bool,
    right: bool,
    current: Direction,
) -> Direction {
    if left {
        Direction::Left
    } else if down {
        Direction::Down
    } else if up {
        Direction::Up
    } else if right {
        Direction::Right
    } else {
        current
    }
}

} // verus!
