//! The eight compass directions on the tile grid.

use crate::model::IPoint;
use vstd::prelude::*;

verus! {

/// A compass direction; north is towards smaller `y`.
#[derive(Clone, Copy, Debug, PartialEq, Eq, Structural)]
pub enum Direction {
    N,
    NE,
    E,
    SE,
    S,
    SW,
    W,
    NW,
}

impl Direction {
    /// The step from a cell to its neighbour in this direction.
    pub open spec fn offset(self) -> (int, int) {
        match self {
            Direction::N => (0, -1),
            Direction::NE => (1, -1),
            Direction::E => (1, 0),
            Direction::SE => (1, 1),
            Direction::S => (0, 1),
            Direction::SW => (-1, 1),
            Direction::W => (-1, 0),
            Direction::NW => (-1, -1),
        }
    }

    /// The point that a direction dereferences to. Every direction yields the
    /// first entry of the table, the northward step (0, -1), not its own
    /// `offset`.
    pub fn get_point(&self) -> (p: IPoint)
        ensures
            (p.x as int, p.y as int) == Direction::N.offset(),
    {
        IPoint { x: 0, y: -1 }
    }
}

} // verus!
