//! Cells of the grid, addressed by column and row.

use vstd::prelude::*;
use crate::config::{TILE_COUNT_X, TILE_COUNT_Y};
use crate::direction::Direction;

verus! {

/// A cell address: column `x` and row `y`, both counted from 0 at the top
/// left. A position may lie outside the grid.
#[derive(Clone, Copy, Debug, PartialEq, Eq, Structural)]
pub struct Position {
    pub x: i32,
    pub y: i32,
}

impl Position {
    /// Whether the position is a cell of the grid.
    pub open spec fn in_bounds(self) -> bool {
        0 <= self.x <= TILE_COUNT_X - 1 && 0 <= self.y <= TILE_COUNT_Y - 1
    }

    /// Whether the neighbouring cell in direction `d` has coordinates that
    /// fit `i32`.
    pub open spec fn can_step(self, d: Direction) -> bool {
        i32::MIN <= self.x + d.dx() <= i32::MAX && i32::MIN <= self.y + d.dy() <= i32::MAX
    }

    /// The neighbouring cell in direction `d`.
    pub open spec fn step(self, d: Direction) -> Position
        recommends
            self.can_step(d),
    {
        Position { x: (self.x + d.dx()) as i32, y: (self.y + d.dy()) as i32 }
    }

    /// Whether `other` is one of the four cells next to this one.
    pub open spec fn is_next_to(self, other: Position) -> bool {
        ||| self.x == other.x && (self.y - other.y == 1 || other.y - self.y == 1)
        ||| self.y == other.y && (self.x - other.x == 1 || other.x - self.x == 1)
    }

    /// Whether the position lies at most `n` cells outside the grid along
    /// each axis.
    pub open spec fn within_margin(self, n: int) -> bool {
        -n <= self.x <= TILE_COUNT_X - 1 + n && -n <= self.y <= TILE_COUNT_Y - 1 + n
    }

    /// The position in column `x` and row `y`.
    pub fn new(x: i32, y: i32) -> (p: Position)
        ensures
            p == (Position { x, y }),
    {
        Position { x, y }
    }

    /// The neighbouring cell in direction `direction`.
    pub fn neighbour(&self, direction: Direction) -> (p: Position)
        requires
            self.can_step(direction),
        ensures
            p == self.step(direction),
    {
        match direction {
            Direction::Up => Position { x: self.x, y: self.y - 1 },
            Direction::Down => Position { x: self.x, y: self.y + 1 },
            Direction::Left => Position { x: self.x - 1, y: self.y },
            Direction::Right => Position { x: self.x + 1, y: self.y },
        }
    }

    /// Whether the position lies outside the grid.
    pub fn is_out_of_bounds(&self) -> (r: bool)
        ensures
            r == !self.in_bounds(),
    {
        let max_x = (TILE_COUNT_X - 1) as i32;
        let max_y = (TILE_COUNT_Y - 1) as i32;
        self.x < 0 || self.x > max_x || self.y < 0 || self.y > max_y
    }
}

} // verus!
