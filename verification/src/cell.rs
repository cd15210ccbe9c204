//! Grid coordinates.

use vstd::prelude::*;
use crate::direction::Direction;

verus! {

/// A position on the unbounded integer plane. `x` grows to the right and `y`
/// grows downwards, as on a screen.
pub struct Cell {
    pub x: int,
    pub y: int,
}

impl Cell {
    /// The neighbouring position one step away in direction `d`.
    pub open spec fn step(self, d: Direction) -> Cell {
        match d {
            Direction::Up => Cell { x: self.x, y: self.y - 1 },
            Direction::Down => Cell { x: self.x, y: self.y + 1 },
            Direction::Left => Cell { x: self.x - 1, y: self.y },
            Direction::Right => Cell { x: self.x + 1, y: self.y },
        }
    }

    /// Whether both coordinates can be held in an `i32`.
    pub open spec fn fits(self) -> bool {
        &&& i32::MIN <= self.x <= i32::MAX
        &&& i32::MIN <= self.y <= i32::MAX
    }
}

/// The position that a pair of machine coordinates stands for.
pub open spec fn cell_at(x: i32, y: i32) -> Cell {
    Cell { x: x as int, y: y as int }
}

/// The position that a stored coordinate pair stands for.
pub open spec fn cell_of(p: (i32, i32)) -> Cell {
    cell_at(p.0, p.1)
}

/// Computes the coordinates one step away from `(x, y)` in direction `d`.
pub fn step_from(x: i32, y: i32, d: Direction) -> (r: (i32, i32))
    requires
        cell_at(x, y).step(d).fits(),
    ensures
        cell_of(r) == cell_at(x, y).step(d),
{
    match d {
        Direction::Up => (x, y - 1),
        Direction::Down => (x, y + 1),
        Direction::Left => (x - 1, y),
        Direction::Right => (x + 1, y),
    }
}

} // verus!
