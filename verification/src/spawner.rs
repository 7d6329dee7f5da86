//! The food spawner: picks a random arena cell, rejects cells occupied by the
//! snake, and places the food. Randomness comes from the `rand` crate behind
//! a trusted wrapper; everything decided from the drawn values is verified
//! for every possible draw.

use vstd::prelude::*;

use crate::grid::Position;
use crate::grid::contains_position;
use crate::grid::in_bounds;
use crate::state::GameState;

verus! {

/// How many random draws the spawner makes before it falls back to a
/// deterministic scan for a free cell.
pub const SPAWN_TRIES: u32 = 32;

/// Relies on rand::random: one draw of a `u32` from the thread-local
/// generator. Nothing is promised of the value; every `u32` is a possible
/// outcome, and callers must cope with all of them.
#[verifier::external_body]
fn random_u32() -> u32 {
    rand::random::<u32>()
}

/// The first cell of the `width` by `height` arena, in row-major order, that
/// the snake does not occupy; `None` exactly when the snake fills the arena.
fn first_free_cell(occupied: &Vec<Position>, width: u32, height: u32) -> (r: Option<Position>)
    requires
        1 <= width <= i32::MAX,
        1 <= height <= i32::MAX,
    ensures
        r matches Some(p) ==> in_bounds(p, width, height) && !occupied@.contains(p),
        r is None ==> forall|p: Position| in_bounds(p, width, height) ==> occupied@.contains(p),
{
    let mut x: u32 = 0;
    #[verifier::loop_isolation(false)]
    while x < width
        invariant
            x <= width,
            forall|p: Position|
                (0 <= p.x < x && 0 <= p.y < height) ==> #[trigger] occupied@.contains(p),
        decreases width - x,
    {
        let mut y: u32 = 0;
        #[verifier::loop_isolation(false)]
        while y < height
            invariant
                y <= height,
                forall|p: Position|
                    (0 <= p.x < x && 0 <= p.y < height) ==> #[trigger] occupied@.contains(p),
                forall|p: Position|
                    (p.x == x && 0 <= p.y < y) ==> #[trigger] occupied@.contains(p),
            decreases height - y,
        {
            let cand = Position { x: x as i32, y: y as i32 };
            if !contains_position(occupied, cand) {
                return Some(cand);
            }
            y += 1;
        }
        x += 1;
    }
    None
}

impl GameState {
    /// Spawn one food item at a cell the snake does not occupy: draw uniform
    /// random cells, rejecting occupied ones, and after `SPAWN_TRIES` draws
    /// fall back to the first free cell in row-major order. Reports whether a
    /// food was placed; placement fails exactly when the snake fills the
    /// whole arena. A fresh spawn replaces any still uneaten food, so at most
    /// one food ever exists.
    pub fn food_spawner(&mut self) -> (spawned: bool)
        requires
            old(self).wf(),
        ensures
            final(self).wf(),
            spawned <==> exists|p: Position|
                in_bounds(p, old(self).width, old(self).height) && !old(self).segments@.contains(
                    p,
                ),
            spawned ==> (final(self).food matches Some(p) && in_bounds(
                p,
                old(self).width,
                old(self).height,
            ) && !old(self).segments@.contains(p)),
            !spawned ==> final(self).food == old(self).food,
            final(self).segments@ == old(self).segments@,
            final(self).direction == old(self).direction,
            final(self).buffer_direction == old(self).buffer_direction,
            final(self).last_tail_position == old(self).last_tail_position,
            final(self).width == old(self).width,
            final(self).height == old(self).height,
    {
        let mut chosen: Option<Position> = None;
        let mut tries: u32 = 0;
        #[verifier::loop_isolation(false)]
        while tries < SPAWN_TRIES && chosen.is_none()
            invariant
                chosen matches Some(p) ==> in_bounds(p, self.width, self.height)
                    && !self.segments@.contains(p),
            decreases SPAWN_TRIES - tries,
        {
            let rx = random_u32() % self.width;
            let ry = random_u32() % self.height;
            let cand = Position { x: rx as i32, y: ry as i32 };
            if !contains_position(&self.segments, cand) {
                chosen = Some(cand);
            }
            tries += 1;
        }
        if chosen.is_none() {
            chosen = first_free_cell(&self.segments, self.width, self.height);
        }
        match chosen {
            Some(p) => {
                self.food = Some(p);
                true
            },
            None => false,
        }
    }
}

} // verus!
