//! A single cell of the automaton and the rule that decides its fate.

use vstd::prelude::*;

verus! {

/// The two states a cell can be in.
#[allow(non_camel_case_types)]
#[derive(Clone, Copy, Debug, PartialEq, Eq, Structural)]
pub enum CellState {
    DEAD,
    ALIVE,
}

/// One unit of the automaton: a position on the grid and a state.
///
/// The coordinates are plain data. A world only ever stores a cell at the
/// position that the cell itself names.
#[derive(Clone, Copy, Debug, PartialEq, Eq, Structural)]
pub struct Cell {
    pub grid_x: i32,
    pub grid_y: i32,
    pub state: CellState,
}

impl CellState {
    /// Conway's rule: the state that a cell in state `self` takes in the next
    /// generation when `neighbours` of the cells around it are alive.
    ///
    /// A cell is alive in the next generation when it has exactly three live
    /// neighbours, or when it is alive now and has exactly two.
    pub open spec fn successor(self, neighbours: nat) -> CellState {
        if neighbours == 3 || (self == CellState::ALIVE && neighbours == 2) {
            CellState::ALIVE
        } else {
            CellState::DEAD
        }
    }

    /// The state that a random draw stands for: `false` is a live cell and
    /// `true` a dead one.
    pub fn from_draw(draw: bool) -> (state: CellState)
        ensures
            state == if draw {
                CellState::DEAD
            } else {
                CellState::ALIVE
            },
    {
        if draw {
            CellState::DEAD
        } else {
            CellState::ALIVE
        }
    }

    /// Applies Conway's rule to one cell: a dead cell with exactly three live
    /// neighbours comes alive, a live cell with fewer than two or more than
    /// three dies, and any other cell stays as it is.
    pub fn next(self, neighbours: u32) -> (next: CellState)
        ensures
            next == self.successor(neighbours as nat),
    {
        match self {
            CellState::DEAD => if neighbours == 3 {
                CellState::ALIVE
            } else {
                self
            },
            CellState::ALIVE => if !(neighbours == 2 || neighbours == 3) {
                CellState::DEAD
            } else {
                self
            },
        }
    }
}

impl Cell {
    /// A cell at `(grid_x, grid_y)` in the given state. Any coordinates are
    /// accepted.
    pub fn new(grid_x: i32, grid_y: i32, state: CellState) -> (cell: Cell)
        ensures
            cell.grid_x == grid_x,
            cell.grid_y == grid_y,
            cell.state == state,
    {
        Cell { grid_x, grid_y, state }
    }
}

} // verus!
