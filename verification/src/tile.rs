//! The ground tile component and its 10 by 10 occupancy grid.

use vstd::prelude::*;
use crate::identity::Pubkey;

verus! {

broadcast use vstd::array::group_array_axioms;

/// One slot of the occupancy grid. A pure tag: any marker may overwrite any
/// other in a single write, with no transition rules between the kinds.
#[derive(Clone, Copy, Debug, PartialEq, Eq, Structural)]
pub enum Cell {
    Empty,
    Tree,
    Trap,
    Egg,
}

impl Default for Cell {
    fn default() -> (r: Self)
        ensures
            r == Cell::Empty,
    {
        Cell::Empty
    }
}

/// A fixed 10 by 10 matrix of cell markers, indexed by `[row][column]` with
/// both indices in `[0, 10)`.
#[derive(Clone, Copy, Debug, PartialEq, Eq)]
pub struct Grid {
    pub cells: [[Cell; 10]; 10],
}

/// The grid `g` with the single slot `(x, y)` overwritten by `c` and every
/// other slot kept.
pub open spec fn grid_with_cell(g: Grid, x: int, y: int, c: Cell) -> Grid
    recommends
        0 <= x < 10,
        0 <= y < 10,
{
    Grid {
        cells: vstd::array::spec_array_update(
            g.cells,
            x,
            vstd::array::spec_array_update(g.cells[x], y, c),
        ),
    }
}

impl Grid {
    /// The marker held at slot `(x, y)`.
    pub open spec fn cell_at(self, x: int, y: int) -> Cell
        recommends
            0 <= x < 10,
            0 <= y < 10,
    {
        self.cells[x][y]
    }

    /// Reads the marker at slot `(x, y)`.
    pub fn read_cell(&self, x: usize, y: usize) -> (r: Cell)
        requires
            x < 10,
            y < 10,
        ensures
            r == self.cell_at(x as int, y as int),
    {
        self.cells[x][y]
    }
}

impl Default for Grid {
    /// A fresh grid holds `Empty` in every slot.
    fn default() -> (r: Self)
        ensures
            forall|i: int, j: int| 0 <= i < 10 && 0 <= j < 10 ==> r.cell_at(i, j) == Cell::Empty,
    {
        Grid { cells: [[Cell::Empty; 10]; 10] }
    }
}

/// The ground tile component: a position in world space (distinct from the
/// grid-cell indices), an owning identity set at creation and never written
/// by the systems here, and the occupancy grid.
#[derive(Clone, Copy, Debug, PartialEq, Eq)]
pub struct Tile {
    pub x: i64,
    pub y: i64,
    pub owner: Pubkey,
    pub grid: Grid,
}

} // verus!
