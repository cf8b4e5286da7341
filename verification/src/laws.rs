//! What holds of every world, proved once and for all.

use vstd::prelude::*;
use crate::cell::{Cell, CellState};
use crate::grid::Grid;
use crate::world::{InitPolicy, World2D, WorldError};

verus! {

/// A world made all dead has the dimensions that were asked for, and a lookup
/// at any position inside it finds a dead cell that names this position.
pub proof fn lemma_new_world_all_dead(
    cells_x: u32,
    cells_y: u32,
    made: Result<World2D, WorldError>,
    size: (u32, u32),
    grid_x: i32,
    grid_y: i32,
    found: Option<&Cell>,
)
    requires
        1 <= cells_x <= i32::MAX,
        1 <= cells_y <= i32::MAX,
        0 <= grid_x < cells_x,
        0 <= grid_y < cells_y,
        call_ensures(World2D::new, (cells_x, cells_y, InitPolicy::AllDead), made),
        made matches Ok(world) ==> {
            &&& call_ensures(World2D::dimensions, (&world,), size)
            &&& call_ensures(World2D::get_cell, (&world, grid_x, grid_y), found)
        },
    ensures
        made is Ok,
        size == (cells_x, cells_y),
        found matches Some(cell) && cell.grid_x == grid_x && cell.grid_y == grid_y && cell.state
            == CellState::DEAD,
{
}

/// Looking a position up twice in the same world gives the same answer
/// twice: whatever two calls of `get_cell` may return for one world and one
/// position is equal.
pub proof fn lemma_lookup_repeatable(
    world: World2D,
    grid_x: i32,
    grid_y: i32,
    first: Option<&Cell>,
    second: Option<&Cell>,
)
    requires
        call_ensures(World2D::get_cell, (&world, grid_x, grid_y), first),
        call_ensures(World2D::get_cell, (&world, grid_x, grid_y), second),
    ensures
        first == second,
{
}

/// Just outside the world there is nothing to find: one column to the left
/// of the first and one column to the right of the last, a lookup comes back
/// empty, whatever the world.
pub proof fn lemma_lookup_outside_is_absent(
    world: World2D,
    size: (u32, u32),
    left: Option<&Cell>,
    right: Option<&Cell>,
)
    requires
        call_ensures(World2D::dimensions, (&world,), size),
        call_ensures(World2D::get_cell, (&world, -1i32, 0i32), left),
        call_ensures(World2D::get_cell, (&world, size.0 as i32, 0i32), right),
    ensures
        left is None,
        right is None,
{
}

/// A step judges every cell by the world before the step: the new state of
/// the cell at any position inside the world is what Conway's rule makes of
/// its old state and of the number of its neighbours that were alive before.
pub proof fn lemma_step_is_simultaneous(grid: Grid, x: int, y: int)
    requires
        grid.in_bounds(x, y),
    ensures
        grid.step().state_at(x, y) == grid.state_at(x, y).successor(grid.live_neighbours(x, y)),
{
}

/// A step keeps the shape of the world and counts one generation, and what
/// was a picture of a world is one afterwards.
pub proof fn lemma_step_keeps_shape(grid: Grid)
    requires
        grid.valid(),
        grid.generation < u32::MAX,
    ensures
        grid.step().valid(),
        grid.step().width == grid.width,
        grid.step().height == grid.height,
        grid.step().generation == grid.generation + 1,
{
}

/// Writing a state at a position inside the world makes that position read
/// as the state written, and leaves every other position, the shape and the
/// generation as they were. Outside the world the write changes nothing.
pub proof fn lemma_write_then_read(grid: Grid, x: int, y: int, state: CellState, u: int, v: int)
    requires
        grid.valid(),
    ensures
        grid.with_state(x, y, state).valid(),
        grid.with_state(x, y, state).width == grid.width,
        grid.with_state(x, y, state).height == grid.height,
        grid.with_state(x, y, state).generation == grid.generation,
        grid.in_bounds(x, y) ==> grid.with_state(x, y, state).state_at(x, y) == state,
        (u, v) != (x, y) ==> grid.with_state(x, y, state).state_at(u, v) == grid.state_at(u, v),
        !grid.in_bounds(x, y) ==> grid.with_state(x, y, state) == grid,
{
}

/// The four positions of the two by two block whose top left corner is
/// `(x, y)`.
pub open spec fn block(x: int, y: int) -> Set<(int, int)> {
    set![(x, y), (x + 1, y), (x, y + 1), (x + 1, y + 1)]
}

/// A row of three positions centred on `(x, y)`.
pub open spec fn bar_across(x: int, y: int) -> Set<(int, int)> {
    set![(x - 1, y), (x, y), (x + 1, y)]
}

/// A column of three positions centred on `(x, y)`.
pub open spec fn bar_down(x: int, y: int) -> Set<(int, int)> {
    set![(x, y - 1), (x, y), (x, y + 1)]
}

/// The block is a still life: a world whose only live cells form a two by
/// two block, anywhere the block fits, has the same live cells one step
/// later.
pub proof fn lemma_block_is_still(grid: Grid, x: int, y: int)
    requires
        grid.in_bounds(x, y),
        grid.in_bounds(x + 1, y + 1),
        grid.alive == block(x, y),
    ensures
        grid.step().alive == grid.alive,
{
    assert forall|p: (int, int)| grid.step().alive.contains(p) == grid.alive.contains(p) by {
        lemma_block_cell(grid, x, y, p.0, p.1);
    }
    assert(grid.step().alive =~= grid.alive);
}

proof fn lemma_block_cell(grid: Grid, x: int, y: int, u: int, v: int)
    requires
        grid.in_bounds(x, y),
        grid.in_bounds(x + 1, y + 1),
        grid.alive == block(x, y),
    ensures
        grid.survives(u, v) == grid.alive.contains((u, v)),
{
}

/// The blinker turns: a world whose only live cells are a row of three, with
/// room above and below its centre, has exactly the column of three through
/// that centre alive one step later, and the other way round. Every cell is
/// judged by the world before the step, so the ends die while the cells above
/// and below the centre are born.
pub proof fn lemma_blinker_turns(grid: Grid, x: int, y: int)
    requires
        grid.in_bounds(x - 1, y - 1),
        grid.in_bounds(x + 1, y + 1),
    ensures
        grid.alive == bar_across(x, y) ==> grid.step().alive == bar_down(x, y),
        grid.alive == bar_down(x, y) ==> grid.step().alive == bar_across(x, y),
{
    if grid.alive == bar_across(x, y) {
        assert forall|p: (int, int)|
            grid.step().alive.contains(p) == bar_down(x, y).contains(p) by {
            lemma_bar_across_cell(grid, x, y, p.0, p.1);
        }
        assert(grid.step().alive =~= bar_down(x, y));
    }
    if grid.alive == bar_down(x, y) {
        assert forall|p: (int, int)|
            grid.step().alive.contains(p) == bar_across(x, y).contains(p) by {
            lemma_bar_down_cell(grid, x, y, p.0, p.1);
        }
        assert(grid.step().alive =~= bar_across(x, y));
    }
}

proof fn lemma_bar_across_cell(grid: Grid, x: int, y: int, u: int, v: int)
    requires
        grid.in_bounds(x - 1, y - 1),
        grid.in_bounds(x + 1, y + 1),
        grid.alive == bar_across(x, y),
    ensures
        grid.survives(u, v) == bar_down(x, y).contains((u, v)),
{
}

proof fn lemma_bar_down_cell(grid: Grid, x: int, y: int, u: int, v: int)
    requires
        grid.in_bounds(x - 1, y - 1),
        grid.in_bounds(x + 1, y + 1),
        grid.alive == bar_down(x, y),
    ensures
        grid.survives(u, v) == bar_across(x, y).contains((u, v)),
{
}

/// In a full world a cell away from the edges has eight live neighbours, a
/// corner cell three and any other cell on an edge five: beyond the edge
/// there is nothing to count.
pub proof fn lemma_full_world_neighbours(width: nat, height: nat, x: int, y: int)
    requires
        2 <= width,
        2 <= height,
        0 <= x < width,
        0 <= y < height,
    ensures
        Grid::uniform(width, height, CellState::ALIVE).live_neighbours(x, y) == if 0 < x < width
            - 1 && 0 < y < height - 1 {
            8int
        } else if (x == 0 || x == width - 1) && (y == 0 || y == height - 1) {
            3int
        } else {
            5int
        },
{
}

/// The four corner positions of a `width` by `height` rectangle.
pub open spec fn corners(width: nat, height: nat) -> Set<(int, int)> {
    set![(0, 0), (width - 1, 0), (0, height - 1), (width - 1, height - 1)]
}

/// A full world thins out to its corners: when every cell of a world at
/// least two cells wide and two cells high is alive, one step later the four
/// corner cells, which have three live neighbours each, are alive and every
/// other cell, with five or eight, is dead.
pub proof fn lemma_full_world_keeps_corners(width: nat, height: nat)
    requires
        2 <= width,
        2 <= height,
    ensures
        Grid::uniform(width, height, CellState::ALIVE).step().alive == corners(width, height),
{
    let grid = Grid::uniform(width, height, CellState::ALIVE);
    assert forall|p: (int, int)|
        grid.step().alive.contains(p) == corners(width, height).contains(p) by {
        lemma_full_world_cell(width, height, p.0, p.1);
    }
    assert(grid.step().alive =~= corners(width, height));
}

proof fn lemma_full_world_cell(width: nat, height: nat, u: int, v: int)
    requires
        2 <= width,
        2 <= height,
    ensures
        Grid::uniform(width, height, CellState::ALIVE).survives(u, v) == corners(
            width,
            height,
        ).contains((u, v)),
{
}

} // verus!
