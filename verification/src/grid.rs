//! The spatial vocabulary of the arena: grid cells, headings, unit steps and
//! the arena bounds check.

use vstd::prelude::*;

verus! {

/// A cell of the arena grid. All spatial reasoning is in whole cells; equality
/// is exact integer equality on both coordinates.
#[derive(Clone, Copy, PartialEq, Eq, Structural, Debug)]
pub struct Position {
    pub x: i32,
    pub y: i32,
}

/// A heading on the grid, used both as the current heading and as the
/// buffered (requested) heading.
#[derive(Clone, Copy, PartialEq, Eq, Structural, Debug)]
pub enum Direction {
    Left,
    Up,
    Right,
    Down,
}

impl Direction {
    /// The exact reverse of this heading.
    pub open spec fn spec_opposite(self) -> Direction {
        match self {
            Direction::Left => Direction::Right,
            Direction::Right => Direction::Left,
            Direction::Up => Direction::Down,
            Direction::Down => Direction::Up,
        }
    }

    pub fn opposite(self) -> (r: Direction)
        ensures
            r == self.spec_opposite(),
    {
        match self {
            Direction::Left => Direction::Right,
            Direction::Right => Direction::Left,
            Direction::Up => Direction::Down,
            Direction::Down => Direction::Up,
        }
    }
}

/// Reversing a heading twice gives it back, and no heading is its own
/// reverse.
pub proof fn lemma_opposite_involution(d: Direction)
    ensures
        d.spec_opposite().spec_opposite() == d,
        d.spec_opposite() != d,
{
}

/// The cell one unit step from `p` along heading `d`. The sign convention is
/// deliberately asymmetric between the axes: `Up` increases `y`, `Down`
/// decreases it, `Left` decreases `x`, `Right` increases it.
pub open spec fn step_from(p: Position, d: Direction) -> Position {
    match d {
        Direction::Left => Position { x: (p.x - 1) as i32, y: p.y },
        Direction::Right => Position { x: (p.x + 1) as i32, y: p.y },
        Direction::Up => Position { x: p.x, y: (p.y + 1) as i32 },
        Direction::Down => Position { x: p.x, y: (p.y - 1) as i32 },
    }
}

/// Cell `cur` trails cell `prev`: they coincide (a just-grown segment) or
/// `prev` is one step from `cur` in the direction its owner travelled when
/// it left that cell.
pub open spec fn seg_adjacent(prev: Position, cur: Position) -> bool {
    prev == cur || exists|d: Direction| prev == step_from(cur, d)
}

/// The snake is a chain: every segment trails its predecessor.
pub open spec fn chained(segs: Seq<Position>) -> bool {
    forall|i: int| 1 <= i < segs.len() ==> seg_adjacent(#[trigger] segs[i - 1], segs[i])
}

/// `p` lies on a `width` by `height` arena, i.e. inside `[0, width) x [0, height)`.
pub open spec fn in_bounds(p: Position, width: u32, height: u32) -> bool {
    &&& 0 <= p.x && p.x < width
    &&& 0 <= p.y && p.y < height
}

/// One step moves a cell by exactly one unit along exactly one axis, with
/// `Up`/`Down` mapped to `+y`/`-y` and `Left`/`Right` to `-x`/`+x`.
pub proof fn lemma_single_step(p: Position, d: Direction)
    requires
        i32::MIN < p.x < i32::MAX,
        i32::MIN < p.y < i32::MAX,
    ensures
        d == Direction::Left ==> step_from(p, d).x == p.x - 1 && step_from(p, d).y == p.y,
        d == Direction::Right ==> step_from(p, d).x == p.x + 1 && step_from(p, d).y == p.y,
        d == Direction::Up ==> step_from(p, d).x == p.x && step_from(p, d).y == p.y + 1,
        d == Direction::Down ==> step_from(p, d).x == p.x && step_from(p, d).y == p.y - 1,
        step_from(p, d) != p,
{
}

/// Executable unit step; mirrors `step_from`.
pub fn step_position(p: Position, d: Direction) -> (q: Position)
    requires
        i32::MIN < p.x < i32::MAX,
        i32::MIN < p.y < i32::MAX,
    ensures
        q == step_from(p, d),
{
    match d {
        Direction::Left => Position { x: p.x - 1, y: p.y },
        Direction::Right => Position { x: p.x + 1, y: p.y },
        Direction::Up => Position { x: p.x, y: p.y + 1 },
        Direction::Down => Position { x: p.x, y: p.y - 1 },
    }
}

/// Executable arena bounds check; mirrors `in_bounds`.
pub fn position_in_bounds(p: Position, width: u32, height: u32) -> (r: bool)
    requires
        width <= i32::MAX,
        height <= i32::MAX,
    ensures
        r == in_bounds(p, width, height),
{
    p.x >= 0 && p.y >= 0 && p.x < width as i32 && p.y < height as i32
}

/// Executable membership test on a list of cells; mirrors `Seq::contains`.
pub fn contains_position(v: &Vec<Position>, p: Position) -> (r: bool)
    ensures
        r == v@.contains(p),
{
    let mut i: usize = 0;
    while i < v.len()
        invariant
            i <= v@.len(),
            forall|j: int| 0 <= j < i ==> v@[j] != p,
        decreases v@.len() - i,
    {
        if v[i] == p {
            assert(v@[i as int] == p);
            return true;
        }
        i += 1;
    }
    false
}

} // verus!
