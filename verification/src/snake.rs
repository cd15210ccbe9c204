//! One snake: an ordered body of cells and a heading.

use std::collections::VecDeque;
use vstd::prelude::*;
use crate::cell::{cell_at, cell_of, step_from, Cell};
use crate::direction::Direction;

verus! {

/// A display colour. Each channel is given in hundredths of full intensity.
/// The rules of the match never look at it.
#[derive(Clone, Copy, Debug, PartialEq, Eq, Structural)]
pub struct Color {
    pub red: u8,
    pub green: u8,
    pub blue: u8,
    pub alpha: u8,
}

/// What a snake is, mathematically.
#[verifier::ext_equal]
pub struct SnakeView {
    /// The cells of the body, oldest first: the tail is at index 0 and the
    /// head is the last element.
    pub body: Seq<Cell>,
    /// The current heading.
    pub heading: Direction,
    /// The display colour.
    pub color: Color,
    /// Whether the next step keeps the tail, so that the body grows by one.
    pub pending_growth: bool,
}

impl SnakeView {
    /// A snake always has a head.
    pub open spec fn wf(self) -> bool {
        self.body.len() >= 1
    }

    /// A fresh snake: a single cell, heading right, with no growth pending.
    pub open spec fn fresh(at: Cell, color: Color) -> SnakeView {
        SnakeView { body: seq![at], heading: Direction::Right, color, pending_growth: false }
    }

    /// The head: the most recently added cell.
    pub open spec fn head(self) -> Cell {
        self.body.last()
    }

    /// The cell the head would reach by one step: along `intent` if there is
    /// one, else along the current heading.
    pub open spec fn next_head(self, intent: Option<Direction>) -> Cell {
        match intent {
            Some(d) => self.head().step(d),
            None => self.head().step(self.heading),
        }
    }

    /// Whether `c` is one of the body's cells.
    pub open spec fn overlaps(self, c: Cell) -> bool {
        self.body.contains(c)
    }

    /// The heading after `intent` has been considered: a turn is taken
    /// unless it would reverse the snake on the spot.
    pub open spec fn turned(self, intent: Option<Direction>) -> Direction {
        match intent {
            Some(d) => if d != self.heading.opposite() { d } else { self.heading },
            None => self.heading,
        }
    }

    /// The snake after one committed step.
    pub open spec fn moved(self, intent: Option<Direction>) -> SnakeView {
        let heading = self.turned(intent);
        let grown = self.body.push(self.head().step(heading));
        SnakeView {
            body: if self.pending_growth { grown } else { grown.subrange(1, grown.len() as int) },
            heading,
            color: self.color,
            pending_growth: false,
        }
    }

    /// The snake with growth scheduled for its next step.
    pub open spec fn with_growth(self) -> SnakeView {
        SnakeView { pending_growth: true, ..self }
    }

    /// The snake with its head relocated to `c`; no cell is added or removed.
    pub open spec fn with_head(self, c: Cell) -> SnakeView {
        SnakeView { body: self.body.update(self.body.len() - 1, c), ..self }
    }
}

/// A snake on the grid.
pub struct Snake {
    direction: Direction,
    body: VecDeque<(i32, i32)>,
    color: Color,
    pending_growth: bool,
}

impl View for Snake {
    type V = SnakeView;

    closed spec fn view(&self) -> SnakeView {
        SnakeView {
            body: self.body@.map_values(|p: (i32, i32)| cell_of(p)),
            heading: self.direction,
            color: self.color,
            pending_growth: self.pending_growth,
        }
    }
}

impl Snake {
    /// Creates a snake of one cell at `(x, y)`, heading right.
    pub fn new(x: i32, y: i32, color: Color) -> (s: Snake)
        ensures
            s@ == SnakeView::fresh(cell_at(x, y), color),
            s@.wf(),
    {
        let mut body: VecDeque<(i32, i32)> = VecDeque::new();
        body.push_back((x, y));
        Snake { direction: Direction::Right, body, color, pending_growth: false }
    }

    /// Returns the head's coordinates.
    pub fn head_position(&self) -> (r: (i32, i32))
        requires
            self@.wf(),
        ensures
            cell_of(r) == self@.head(),
    {
        self.body[self.body.len() - 1]
    }

    /// Returns the current heading.
    pub fn head_direction(&self) -> (r: Direction)
        ensures
            r == self@.heading,
    {
        self.direction
    }

    /// Returns the display colour.
    pub fn color(&self) -> (r: Color)
        ensures
            r == self@.color,
    {
        self.color
    }

    /// Returns the number of cells in the body.
    pub fn len(&self) -> (r: usize)
        ensures
            r == self@.body.len(),
    {
        self.body.len()
    }

    /// Returns the coordinates of the `i`-th cell, counted from the tail.
    pub fn block(&self, i: usize) -> (r: (i32, i32))
        requires
            i < self@.body.len(),
        ensures
            cell_of(r) == self@.body[i as int],
    {
        self.body[i]
    }

    /// Returns whether growth is scheduled for the next step.
    pub fn is_growing(&self) -> (r: bool)
        ensures
            r == self@.pending_growth,
    {
        self.pending_growth
    }

    /// Computes where the head would be after one step, along `dir` if it is
    /// given and along the current heading otherwise. Nothing is changed.
    pub fn next_head(&self, dir: Option<Direction>) -> (r: (i32, i32))
        requires
            self@.wf(),
            self@.next_head(dir).fits(),
        ensures
            cell_of(r) == self@.next_head(dir),
    {
        let (head_x, head_y) = self.head_position();
        let moving_dir = match dir {
            Some(d) => d,
            None => self.direction,
        };
        step_from(head_x, head_y, moving_dir)
    }

    /// Tells whether `(x, y)` is one of the body's cells.
    pub fn overlap_tail(&self, x: i32, y: i32) -> (r: bool)
        ensures
            r == self@.overlaps(cell_at(x, y)),
    {
        let n = self.body.len();
        let mut i: usize = 0;
        while i < n
            invariant
                i <= n,
                n == self.body@.len(),
                forall|j: int| 0 <= j < i ==> self@.body[j] != cell_at(x, y),
            decreases n - i,
        {
            let (bx, by) = self.body[i];
            if bx == x && by == y {
                assert(self@.body[i as int] == cell_at(x, y));
                return true;
            }
            i += 1;
        }
        false
    }

    /// Commits one step. A turn to `dir` is taken first unless it would
    /// reverse the snake; the new head is then added in front of the old one.
    /// The tail is dropped unless growth was scheduled, in which case the
    /// body grows by one cell and the schedule is cleared.
    pub fn move_forward(&mut self, dir: Option<Direction>)
        requires
            old(self)@.wf(),
            old(self)@.moved(dir).head().fits(),
        ensures
            final(self)@ == old(self)@.moved(dir),
            final(self)@.wf(),
    {
        match dir {
            Some(d) => {
                if d != self.direction.opposite() {
                    self.direction = d;
                }
            },
            None => {},
        }
        let (last_x, last_y) = self.head_position();
        let new_block = step_from(last_x, last_y, self.direction);
        self.body.push_back(new_block);
        if self.pending_growth {
            self.pending_growth = false;
        } else {
            self.body.pop_front();
        }
    }

    /// Schedules growth: the next step keeps the tail.
    pub fn restore_tail(&mut self)
        ensures
            final(self)@ == old(self)@.with_growth(),
    {
        self.pending_growth = true;
    }

    /// Moves the head to `(new_x, new_y)` without adding or removing a cell.
    pub fn overflow_switch(&mut self, new_x: i32, new_y: i32)
        requires
            old(self)@.wf(),
        ensures
            final(self)@ == old(self)@.with_head(cell_at(new_x, new_y)),
            final(self)@.wf(),
    {
        self.body.pop_back();
        self.body.push_back((new_x, new_y));
    }
}

} // verus!
