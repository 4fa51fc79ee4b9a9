//! The snake model: an ordered chain of body segments and a travel direction.
//!
//! The head is the newest segment (the last element of `body`), the tail the
//! oldest (index 0). Movement and growth are unified: a step appends a new
//! head, and the tail is popped separately whenever no fruit was consumed, so
//! that eating skips the pop and produces net growth of one.

use vstd::prelude::*;

use crate::geometry::{Coord, is_out_of_bounds, spec_out_of_bounds};

verus! {

/// The four travel directions of the snake.
#[derive(Clone, Copy, PartialEq, Eq, Structural, Debug)]
pub enum Direction {
    Up,
    Down,
    Left,
    Right,
}

/// Column of the canonical start coordinate of a fresh snake.
pub const START_COL: i8 = 7;

/// Row of the canonical start coordinate of a fresh snake.
pub const START_ROW: i8 = 7;

/// The canonical single-segment start position of a fresh snake.
pub open spec fn start_coordinate() -> Coord {
    Coord { col: START_COL, row: START_ROW }
}

/// The coordinate one cell away from `c` in direction `d`.
pub open spec fn step(c: Coord, d: Direction) -> Coord {
    match d {
        Direction::Up => Coord { col: c.col, row: (c.row - 1) as i8 },
        Direction::Down => Coord { col: c.col, row: (c.row + 1) as i8 },
        Direction::Left => Coord { col: (c.col - 1) as i8, row: c.row },
        Direction::Right => Coord { col: (c.col + 1) as i8, row: c.row },
    }
}

/// The player-controlled segment chain.
pub struct Snake {
    /// Ordered body segments; oldest at index 0, head at the end.
    pub body: Vec<Coord>,
    /// Travel direction; mutated only by input, never by collision logic.
    pub direction: Direction,
}

impl Snake {
    /// The newest segment.
    pub open spec fn head(self) -> Coord {
        self.body@.last()
    }

    /// The body is never empty.
    pub open spec fn wf(self) -> bool {
        self.body@.len() >= 1
    }

    /// The head coincides with some earlier body segment.
    pub open spec fn spec_self_collision(self) -> bool {
        exists|i: int| 0 <= i < self.body@.len() - 1 && self.body@[i] == self.head()
    }

    /// A fresh snake: a single segment at the canonical start coordinate,
    /// headed right.
    pub fn new() -> (s: Snake)
        ensures
            s.body@ =~= seq![start_coordinate()],
            s.direction == Direction::Right,
            s.head() == start_coordinate(),
            s.wf(),
    {
        let mut body: Vec<Coord> = Vec::new();
        body.push(Coord { col: START_COL, row: START_ROW });
        Snake { body, direction: Direction::Right }
    }

    /// Appends the new head: the current head shifted one cell in the travel
    /// direction. Does not remove the tail.
    pub fn advance(&mut self)
        requires
            old(self).wf(),
            i8::MIN < old(self).head().col < i8::MAX,
            i8::MIN < old(self).head().row < i8::MAX,
        ensures
            final(self).body@ == old(self).body@.push(step(old(self).head(), old(self).direction)),
            final(self).direction == old(self).direction,
            final(self).head() == step(old(self).head(), old(self).direction),
            final(self).wf(),
    {
        let head = self.body[self.body.len() - 1];
        let new_head = match self.direction {
            Direction::Up => Coord { col: head.col, row: head.row - 1 },
            Direction::Down => Coord { col: head.col, row: head.row + 1 },
            Direction::Left => Coord { col: head.col - 1, row: head.row },
            Direction::Right => Coord { col: head.col + 1, row: head.row },
        };
        self.body.push(new_head);
    }

    /// Removes the oldest segment. Called after `advance` whenever no fruit
    /// was consumed, keeping the length constant.
    pub fn shrink_tail(&mut self)
        requires
            old(self).body@.len() >= 2,
        ensures
            final(self).body@ == old(self).body@.drop_first(),
            final(self).direction == old(self).direction,
            final(self).head() == old(self).head(),
            final(self).wf(),
    {
        self.body.remove(0);
        proof {
            assert(self.body@ =~= old(self).body@.drop_first());
        }
    }

    /// True when the head coordinate equals some other body segment's
    /// coordinate (the head compared against all segments excluding itself).
    pub fn has_self_collision(&self) -> (r: bool)
        requires
            self.wf(),
        ensures
            r == self.spec_self_collision(),
    {
        let head = self.body[self.body.len() - 1];
        let mut i: usize = 0;
        while i < self.body.len() - 1
            invariant
                self.wf(),
                0 <= i <= self.body@.len() - 1,
                head == self.head(),
                forall|j: int| 0 <= j < i ==> self.body@[j] != self.head(),
            decreases self.body@.len() - 1 - i,
        {
            if self.body[i] == head {
                return true;
            }
            i += 1;
        }
        false
    }

    /// True when the head lies beyond the playfield frame.
    pub fn is_head_out_of_bounds(&self) -> (r: bool)
        requires
            self.wf(),
        ensures
            r == spec_out_of_bounds(self.head()),
    {
        is_out_of_bounds(self.body[self.body.len() - 1])
    }
}

} // verus!
