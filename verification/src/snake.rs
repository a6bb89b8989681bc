//! The snake's physical state: an ordered body of grid cells (head at the
//! front) and a current heading, with movement and collision queries.

use std::collections::VecDeque;
use vstd::prelude::*;

verus! {

/// A heading on the grid. `Up` decreases the row, `Down` increases it,
/// `Left` decreases the column, `Right` increases it.
#[derive(Clone, Copy, PartialEq, Eq, Structural, Debug)]
pub enum Direction {
    Up,
    Down,
    Left,
    Right,
}

/// The exact reverse of a heading.
pub open spec fn opposite(d: Direction) -> Direction {
    match d {
        Direction::Up => Direction::Down,
        Direction::Down => Direction::Up,
        Direction::Left => Direction::Right,
        Direction::Right => Direction::Left,
    }
}

/// A cell whose neighbours in every direction still fit in `i32`.
pub open spec fn step_ok(p: (i32, i32)) -> bool {
    i32::MIN < p.0 < i32::MAX && i32::MIN < p.1 < i32::MAX
}

/// The cell one step from `p` along `d`.
pub open spec fn step_of(p: (i32, i32), d: Direction) -> (i32, i32)
    recommends
        step_ok(p),
{
    match d {
        Direction::Up => (((p.0 - 1) as i32), p.1),
        Direction::Down => (((p.0 + 1) as i32), p.1),
        Direction::Left => (p.0, ((p.1 - 1) as i32)),
        Direction::Right => (p.0, ((p.1 + 1) as i32)),
    }
}

/// The body after one movement step along `d`: the new head cell in front,
/// the tail kept when growing and dropped otherwise.
pub open spec fn moved_body(body: Seq<(i32, i32)>, d: Direction, grow: bool) -> Seq<(i32, i32)>
    recommends
        body.len() > 0,
{
    let pushed = seq![step_of(body[0], d)] + body;
    if grow {
        pushed
    } else {
        pushed.drop_last()
    }
}

/// Movement preserves the body length when not growing, and increases it by
/// exactly one when growing.
pub proof fn lemma_move_forward_len(body: Seq<(i32, i32)>, d: Direction)
    requires
        body.len() > 0,
    ensures
        moved_body(body, d, false).len() == body.len(),
        moved_body(body, d, true).len() == body.len() + 1,
{
}

/// The head after a movement step is the prior head offset by exactly one
/// cell along the heading, whether or not the snake grows.
pub proof fn lemma_move_forward_head(body: Seq<(i32, i32)>, d: Direction, grow: bool)
    requires
        body.len() > 0,
    ensures
        moved_body(body, d, grow)[0] == step_of(body[0], d),
{
}

pub struct Snake {
    /// Body cells as (row, column) pairs; the head is at the front.
    pub body: VecDeque<(i32, i32)>,
    pub direction: Direction,
}

impl Snake {
    /// The body is never empty.
    pub open spec fn wf(self) -> bool {
        self.body@.len() > 0
    }

    /// A snake with a single segment at (x, y), heading `Right`.
    pub fn new(x: i32, y: i32) -> (s: Snake)
        ensures
            s.wf(),
            s.body@ =~= seq![(x, y)],
            s.direction == Direction::Right,
    {
        let mut body: VecDeque<(i32, i32)> = VecDeque::new();
        body.push_back((x, y));
        Snake { body, direction: Direction::Right }
    }

    /// Advances one cell along the current heading: the new head cell is
    /// pushed in front, and the tail is dropped unless `grow` is set.
    pub fn move_forward(&mut self, grow: bool)
        requires
            old(self).wf(),
            step_ok(old(self).body@[0]),
        ensures
            final(self).wf(),
            final(self).direction == old(self).direction,
            final(self).body@ =~= moved_body(old(self).body@, old(self).direction, grow),
    {
        let head: (i32, i32) = self.body[0];
        let new_head: (i32, i32) = match self.direction {
            Direction::Up => (head.0 - 1, head.1),
            Direction::Down => (head.0 + 1, head.1),
            Direction::Left => (head.0, head.1 - 1),
            Direction::Right => (head.0, head.1 + 1),
        };
        self.body.push_front(new_head);
        if !grow {
            self.body.pop_back();
        }
    }

    /// Overwrites the heading unconditionally; the caller is responsible
    /// for filtering out reversals.
    pub fn change_direction(&mut self, new_direction: Direction)
        ensures
            final(self).direction == new_direction,
            final(self).body == old(self).body,
    {
        self.direction = new_direction;
    }

    /// The front segment of the body.
    pub fn head_position(&self) -> (p: (i32, i32))
        requires
            self.wf(),
        ensures
            p == self.body@[0],
    {
        self.body[0]
    }

    /// Whether `pos` is an exact member of the current body sequence.
    pub fn is_colliding(&self, pos: (i32, i32)) -> (r: bool)
        ensures
            r == self.body@.contains(pos),
    {
        let n = self.body.len();
        let mut i: usize = 0;
        let mut found = false;
        while i < n
            invariant
                n == self.body@.len(),
                i <= n,
                found == exists|j: int| 0 <= j < i && self.body@[j] == pos,
            decreases n - i,
        {
            let seg = self.body[i];
            if seg.0 == pos.0 && seg.1 == pos.1 {
                found = true;
            }
            i += 1;
        }
        found
    }
}

} // verus!
