//! The mathematical model of a world.

use vstd::prelude::*;
use crate::cell::{Cell, CellState};

verus! {

/// A world as mathematics sees it: a `width` by `height` rectangle of the
/// integer plane, the set of positions that hold a live cell, and the number
/// of generations that have passed.
///
/// Positions are `(x, y)` pairs with `x` counting columns and `y` counting
/// rows. Only positions inside the rectangle can hold a cell; what `alive`
/// says about any other position is ignored.
pub struct Grid {
    pub width: nat,
    pub height: nat,
    pub alive: Set<(int, int)>,
    pub generation: nat,
}

impl Grid {
    /// The world of the given dimensions at generation zero in which every
    /// cell is in `state`.
    pub open spec fn uniform(width: nat, height: nat, state: CellState) -> Grid {
        Grid {
            width,
            height,
            alive: Set::new(
                |p: (int, int)|
                    state == CellState::ALIVE && 0 <= p.0 < width && 0 <= p.1 < height,
            ),
            generation: 0,
        }
    }

    /// Whether `self` can be the picture of a world: both dimensions are at
    /// least one and small enough for `i32` coordinates, nothing is alive
    /// outside the rectangle, and the generation fits the counter.
    pub open spec fn valid(self) -> bool {
        &&& 1 <= self.width <= i32::MAX
        &&& 1 <= self.height <= i32::MAX
        &&& self.generation <= u32::MAX
        &&& forall|p: (int, int)| self.alive.contains(p) ==> self.in_bounds(p.0, p.1)
    }

    /// Whether `(x, y)` lies inside the rectangle.
    pub open spec fn in_bounds(self, x: int, y: int) -> bool {
        0 <= x < self.width && 0 <= y < self.height
    }

    /// Whether there is a live cell at `(x, y)`. Outside the rectangle there
    /// are no cells, so nothing is alive there: the edges are hard.
    pub open spec fn is_alive(self, x: int, y: int) -> bool {
        self.in_bounds(x, y) && self.alive.contains((x, y))
    }

    /// The state of the cell at `(x, y)`.
    pub open spec fn state_at(self, x: int, y: int) -> CellState
        recommends
            self.in_bounds(x, y),
    {
        if self.is_alive(x, y) {
            CellState::ALIVE
        } else {
            CellState::DEAD
        }
    }

    /// The cell stored at `(x, y)`, if that position is inside the rectangle.
    pub open spec fn cell_at(self, x: int, y: int) -> Option<Cell> {
        if self.in_bounds(x, y) {
            Some(Cell { grid_x: x as i32, grid_y: y as i32, state: self.state_at(x, y) })
        } else {
            None
        }
    }

    /// The world in which the cell at `(x, y)` is in `state` and every other
    /// cell is as in `self`. For a position outside the rectangle that is
    /// `self`.
    pub open spec fn with_state(self, x: int, y: int, state: CellState) -> Grid {
        if self.in_bounds(x, y) {
            Grid {
                alive: match state {
                    CellState::ALIVE => self.alive.insert((x, y)),
                    CellState::DEAD => self.alive.remove((x, y)),
                },
                ..self
            }
        } else {
            self
        }
    }

    /// One if `(x, y)` holds a live cell, zero otherwise.
    pub open spec fn live(self, x: int, y: int) -> nat {
        if self.is_alive(x, y) {
            1
        } else {
            0
        }
    }

    /// The number of live cells among the eight positions that touch
    /// `(x, y)`. The position itself is not counted, and positions outside
    /// the rectangle contribute nothing.
    pub open spec fn live_neighbours(self, x: int, y: int) -> nat {
        self.live(x - 1, y - 1) + self.live(x, y - 1) + self.live(x + 1, y - 1)
            + self.live(x - 1, y) + self.live(x + 1, y)
            + self.live(x - 1, y + 1) + self.live(x, y + 1) + self.live(x + 1, y + 1)
    }

    /// Whether the cell at `(x, y)` is alive one generation later.
    pub open spec fn survives(self, x: int, y: int) -> bool {
        self.in_bounds(x, y)
            && self.state_at(x, y).successor(self.live_neighbours(x, y)) == CellState::ALIVE
    }

    /// The next generation. Every cell's new state is decided from `self`
    /// alone, so all cells change at once.
    pub open spec fn step(self) -> Grid {
        Grid {
            width: self.width,
            height: self.height,
            alive: Set::new(|p: (int, int)| self.survives(p.0, p.1)),
            generation: self.generation + 1,
        }
    }
}

} // verus!
