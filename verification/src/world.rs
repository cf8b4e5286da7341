//! The world: a dense rectangle of cells and the operations on it.

use vstd::prelude::*;
use crate::cell::{Cell, CellState};
use crate::grid::Grid;
use crate::random::random_bool;

verus! {

/// Why a world could not be built.
#[derive(Clone, Copy, Debug, PartialEq, Eq, Structural)]
pub enum WorldError {
    /// The requested width or height was zero.
    InvalidDimensions,
}

/// How the cells of a new world get their first state.
#[derive(Clone, Copy, Debug, PartialEq, Eq, Structural)]
pub enum InitPolicy {
    /// Every cell starts dead.
    AllDead,
    /// Every cell starts alive.
    AllAlive,
    /// Every cell is decided by its own flip of a fair coin.
    RandomUniform,
}

impl InitPolicy {
    /// The state that every cell starts in, for the policies that leave
    /// nothing to chance.
    pub open spec fn fixed_state(self) -> Option<CellState> {
        match self {
            InitPolicy::AllDead => Some(CellState::DEAD),
            InitPolicy::AllAlive => Some(CellState::ALIVE),
            InitPolicy::RandomUniform => None,
        }
    }

    /// Picks the first state of one cell, flipping a coin where the policy
    /// asks for it.
    fn first_state(self) -> (state: CellState)
        ensures
            self.fixed_state() matches Some(s) ==> state == s,
    {
        match self {
            InitPolicy::AllDead => CellState::DEAD,
            InitPolicy::AllAlive => CellState::ALIVE,
            InitPolicy::RandomUniform => CellState::from_draw(random_bool()),
        }
    }
}

/// A rectangular world of cells together with its generation counter.
///
/// The rows are the outer vector and the cells of a row the inner one, so
/// walking the vectors in order visits the cells in row-major order.
#[derive(Debug)]
pub struct World2D {
    cells: Vec<Vec<Cell>>,
    gen: u32,
}

impl View for World2D {
    type V = Grid;

    closed spec fn view(&self) -> Grid {
        Grid {
            width: self.cells[0].len() as nat,
            height: self.cells.len() as nat,
            alive: Set::new(
                |p: (int, int)|
                    0 <= p.1 < self.cells.len() && 0 <= p.0 < self.cells[p.1].len()
                        && self.cells[p.1][p.0].state == CellState::ALIVE,
            ),
            generation: self.gen as nat,
        }
    }
}

/// Whether `cells` is a dense, non-empty rectangle in which every cell names
/// its own position.
spec fn dense(cells: Seq<Vec<Cell>>) -> bool {
    &&& 1 <= cells.len() <= i32::MAX
    &&& 1 <= cells[0].len() <= i32::MAX
    &&& forall|y: int| 0 <= y < cells.len() ==> (#[trigger] cells[y]).len() == cells[0].len()
    &&& forall|y: int, x: int|
        0 <= y < cells.len() && 0 <= x < cells[y].len() ==> {
            let cell = #[trigger] cells[y][x];
            cell.grid_x == x && cell.grid_y == y
        }
}

/// Overwrites the state of the cell in row `y`, column `x`, and nothing else.
fn put_state(cells: &mut Vec<Vec<Cell>>, x: usize, y: usize, state: CellState)
    requires
        y < old(cells).len(),
        x < old(cells)[y as int].len(),
    ensures
        final(cells).len() == old(cells).len(),
        forall|j: int| 0 <= j < old(cells).len() && j != y ==> final(cells)[j] == old(cells)[j],
        final(cells)[y as int]@ == old(cells)[y as int]@.update(
            x as int,
            Cell { state, ..old(cells)[y as int][x as int] },
        ),
    no_unwind
{
    cells[y][x].state = state;
}

impl World2D {
    #[verifier::type_invariant]
    spec fn well_formed(&self) -> bool {
        dense(self.cells@)
    }

    /// A world of `cells_x` columns and `cells_y` rows at generation zero,
    /// its cells set up as `init` says.
    ///
    /// Fails exactly when one of the dimensions is zero. Cell coordinates are
    /// `i32`, so neither dimension may exceed `i32::MAX`.
    pub fn new(cells_x: u32, cells_y: u32, init: InitPolicy) -> (world: Result<
        World2D,
        WorldError,
    >)
        requires
            cells_x <= i32::MAX,
            cells_y <= i32::MAX,
        ensures
            (cells_x == 0 || cells_y == 0) <==> world is Err,
            world matches Err(e) ==> e == WorldError::InvalidDimensions,
            world matches Ok(w) ==> {
                &&& w@.valid()
                &&& w@.width == cells_x
                &&& w@.height == cells_y
                &&& w@.generation == 0
                &&& init.fixed_state() matches Some(state) ==> w@ == Grid::uniform(
                    cells_x as nat,
                    cells_y as nat,
                    state,
                )
            },
    {
        if cells_x == 0 || cells_y == 0 {
            return Err(WorldError::InvalidDimensions);
        }
        let mut cells: Vec<Vec<Cell>> = Vec::new();
        let mut y: u32 = 0;
        while y < cells_y
            invariant
                y <= cells_y <= i32::MAX,
                cells_x <= i32::MAX,
                cells.len() == y,
                forall|j: int| 0 <= j < y ==> (#[trigger] cells[j]).len() == cells_x,
                forall|j: int, i: int|
                    0 <= j < y && 0 <= i < cells_x ==> {
                        let cell = #[trigger] cells[j][i];
                        &&& cell.grid_x == i
                        &&& cell.grid_y == j
                        &&& init.fixed_state() matches Some(state) ==> cell.state == state
                    },
            decreases cells_y - y,
        {
            let mut row: Vec<Cell> = Vec::new();
            let mut x: u32 = 0;
            while x < cells_x
                invariant
                    x <= cells_x <= i32::MAX,
                    y < cells_y <= i32::MAX,
                    row.len() == x,
                    forall|i: int|
                        0 <= i < x ==> {
                            let cell = #[trigger] row[i];
                            &&& cell.grid_x == i
                            &&& cell.grid_y == y
                            &&& init.fixed_state() matches Some(state) ==> cell.state == state
                        },
                decreases cells_x - x,
            {
                row.push(Cell::new(x as i32, y as i32, init.first_state()));
                x = x + 1;
            }
            cells.push(row);
            y = y + 1;
        }
        let world = World2D { cells, gen: 0 };
        proof {
            if let Some(state) = init.fixed_state() {
                assert(world@.alive =~= Grid::uniform(
                    cells_x as nat,
                    cells_y as nat,
                    state,
                ).alive);
            }
        }
        Ok(world)
    }

    /// A square world of `size` by `size` cells, all of them in `state`, at
    /// generation zero. Fails exactly when `size` is zero.
    pub fn all(size: u32, state: CellState) -> (world: Result<World2D, WorldError>)
        requires
            size <= i32::MAX,
        ensures
            size == 0 <==> world is Err,
            world matches Err(e) ==> e == WorldError::InvalidDimensions,
            world matches Ok(w) ==> w@.valid() && w@ == Grid::uniform(
                size as nat,
                size as nat,
                state,
            ),
    {
        let init = match state {
            CellState::DEAD => InitPolicy::AllDead,
            CellState::ALIVE => InitPolicy::AllAlive,
        };
        World2D::new(size, size, init)
    }

    /// The cell at `(grid_x, grid_y)`, or `None` when that position is outside
    /// the world.
    pub fn get_cell(&self, grid_x: i32, grid_y: i32) -> (cell: Option<&Cell>)
        ensures
            cell is Some <==> self@.in_bounds(grid_x as int, grid_y as int),
            match cell {
                Some(c) => self@.cell_at(grid_x as int, grid_y as int) == Some(*c),
                None => self@.cell_at(grid_x as int, grid_y as int) is None,
            },
    {
        proof {
            use_type_invariant(self);
        }
        if grid_x < 0 || grid_y < 0 {
            return None;
        }
        let x = grid_x as usize;
        let y = grid_y as usize;
        if y >= self.cells.len() {
            return None;
        }
        let row = &self.cells[y];
        if x >= row.len() {
            return None;
        }
        Some(&row[x])
    }

    /// Puts the cell at `(grid_x, grid_y)` into `state`. A position outside
    /// the world is ignored and the world stays as it was.
    pub fn set_cell(&mut self, grid_x: i32, grid_y: i32, state: CellState)
        ensures
            final(self)@ == old(self)@.with_state(grid_x as int, grid_y as int, state),
    {
        proof {
            use_type_invariant(&*self);
        }
        if grid_x < 0 || grid_y < 0 {
            return;
        }
        let x = grid_x as usize;
        let y = grid_y as usize;
        if y >= self.cells.len() {
            return;
        }
        if x >= self.cells[y].len() {
            return;
        }
        put_state(&mut self.cells, x, y, state);
        proof {
            assert(self@.alive =~= old(self)@.with_state(
                grid_x as int,
                grid_y as int,
                state,
            ).alive);
        }
    }

    /// One if `(x, y)` holds a live cell, zero otherwise.
    fn live_at(&self, x: i64, y: i64) -> (count: u32)
        ensures
            count == self@.live(x as int, y as int),
    {
        proof {
            use_type_invariant(self);
        }
        if x < 0 || y < 0 || y >= self.cells.len() as i64 {
            return 0;
        }
        let row = &self.cells[y as usize];
        if x >= row.len() as i64 {
            return 0;
        }
        match row[x as usize].state {
            CellState::ALIVE => 1,
            CellState::DEAD => 0,
        }
    }

    /// Counts the live cells among the eight positions around
    /// `(grid_x, grid_y)`. Positions outside the world count as empty; the
    /// world does not wrap around.
    pub fn get_neighbours(&self, grid_x: i32, grid_y: i32) -> (counter: u32)
        ensures
            counter == self@.live_neighbours(grid_x as int, grid_y as int),
    {
        let x = grid_x as i64;
        let y = grid_y as i64;
        self.live_at(x - 1, y - 1) + self.live_at(x, y - 1) + self.live_at(x + 1, y - 1)
            + self.live_at(x - 1, y) + self.live_at(x + 1, y)
            + self.live_at(x - 1, y + 1) + self.live_at(x, y + 1) + self.live_at(x + 1, y + 1)
    }

    /// A copy of the world as it is now.
    fn snapshot(&self) -> (copy: World2D)
        ensures
            copy@ == self@,
    {
        proof {
            use_type_invariant(self);
        }
        let copy = World2D { cells: self.cells.clone(), gen: self.gen };
        proof {
            assert(copy@.alive =~= self@.alive);
        }
        copy
    }

    /// Advances the world by one generation.
    ///
    /// Every cell's new state is decided by Conway's rule from the world as it
    /// was before the call, so the cells change as if all at once, and the
    /// generation counter goes up by one. The counter is a `u32` and must
    /// have room for that.
    pub fn tick(&mut self)
        requires
            old(self)@.generation < u32::MAX,
        ensures
            final(self)@ == old(self)@.step(),
    {
        let old_world = self.snapshot();
        proof {
            use_type_invariant(&old_world);
        }
        let ghost before = old_world@;
        let height = old_world.cells.len();
        let width = old_world.cells[0].len();
        let mut y: usize = 0;
        while y < height
            invariant
                y <= height,
                dense(old_world.cells@),
                old_world@ == before,
                before.width == width,
                before.height == height,
                self@.width == before.width,
                self@.height == before.height,
                self@.generation == before.generation,
                forall|p: (int, int)|
                    self@.alive.contains(p) <==> if p.1 < y {
                        before.survives(p.0, p.1)
                    } else {
                        before.alive.contains(p)
                    },
            decreases height - y,
        {
            let mut x: usize = 0;
            while x < width
                invariant
                    x <= width,
                    y < height,
                    dense(old_world.cells@),
                    old_world@ == before,
                    before.width == width,
                    before.height == height,
                    self@.width == before.width,
                    self@.height == before.height,
                    self@.generation == before.generation,
                    forall|p: (int, int)|
                        self@.alive.contains(p) <==> if p.1 < y || (p.1 == y && p.0 < x) {
                            before.survives(p.0, p.1)
                        } else {
                            before.alive.contains(p)
                        },
                decreases width - x,
            {
                let cell = old_world.cells[y][x];
                let neighbours = old_world.get_neighbours(cell.grid_x, cell.grid_y);
                self.set_cell(cell.grid_x, cell.grid_y, cell.state.next(neighbours));
                x = x + 1;
            }
            y = y + 1;
        }
        proof {
            use_type_invariant(&*self);
        }
        let ghost stepped = self@.alive;
        self.gen = self.gen + 1;
        proof {
            assert(self@.alive =~= stepped);
            assert(stepped =~= before.step().alive);
        }
    }

    /// The width and the height of the world, in cells.
    pub fn dimensions(&self) -> (size: (u32, u32))
        ensures
            size.0 == self@.width,
            size.1 == self@.height,
            self@.valid(),
    {
        proof {
            use_type_invariant(self);
        }
        (self.cells_x(), self.cells_y())
    }

    /// How many generations have passed since the world was made.
    pub fn generation(&self) -> (generation: u32)
        ensures
            generation == self@.generation,
    {
        self.gen
    }

    /// All the cells, row by row: entry `y` of the result is row `y`, and
    /// entry `x` of a row is the cell at `(x, y)`.
    pub fn cells(&self) -> (rows: &Vec<Vec<Cell>>)
        ensures
            rows.len() == self@.height,
            forall|y: int| 0 <= y < rows.len() ==> (#[trigger] rows[y]).len() == self@.width,
            forall|y: int, x: int|
                0 <= y < self@.height && 0 <= x < self@.width ==> self@.cell_at(x, y) == Some(
                    #[trigger] rows[y][x],
                ),
    {
        proof {
            use_type_invariant(self);
        }
        &self.cells
    }

    /// The number of columns.
    pub fn cells_x(&self) -> (width: u32)
        ensures
            width == self@.width,
    {
        proof {
            use_type_invariant(self);
        }
        self.cells[0].len() as u32
    }

    /// The number of rows.
    pub fn cells_y(&self) -> (height: u32)
        ensures
            height == self@.height,
    {
        proof {
            use_type_invariant(self);
        }
        self.cells.len() as u32
    }
}

} // verus!
