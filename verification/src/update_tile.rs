//! The tile mutation system: writes one cell marker into a tile's grid.

use vstd::prelude::*;
use crate::codec::{le_i64_at, read_le_i64};
use crate::errors::SystemError;
use crate::tile::{grid_with_cell, Cell, Grid, Tile};

verus! {

broadcast use vstd::array::group_array_axioms;

/// The cell marker named by discriminant byte `v`, if any.
pub open spec fn spec_decode_cell(v: u8) -> Option<Cell> {
    if v == 0 {
        Some(Cell::Empty)
    } else if v == 1 {
        Some(Cell::Tree)
    } else if v == 2 {
        Some(Cell::Trap)
    } else if v == 3 {
        Some(Cell::Egg)
    } else {
        None
    }
}

/// The tile mutation argument record decoded from buffer `b`: two eight-byte
/// little-endian signed coordinates followed by one cell discriminant byte,
/// seventeen bytes in all. Any other length, and any discriminant outside
/// the known range, is a decode failure.
pub open spec fn spec_decode_tile_args(b: Seq<u8>) -> Option<(int, int, Cell)> {
    if b.len() == 17 {
        match spec_decode_cell(b[16]) {
            Some(c) => Some((le_i64_at(b, 0), le_i64_at(b, 8), c)),
            None => None,
        }
    } else {
        None
    }
}

/// Decodes the cell discriminant byte.
fn decode_cell(v: u8) -> (r: Option<Cell>)
    ensures
        r == spec_decode_cell(v),
{
    if v == 0 {
        Some(Cell::Empty)
    } else if v == 1 {
        Some(Cell::Tree)
    } else if v == 2 {
        Some(Cell::Trap)
    } else if v == 3 {
        Some(Cell::Egg)
    } else {
        None
    }
}

/// Applies the tile mutation system to one tile.
///
/// The argument buffer must decode to `(x, y, cell)` with both coordinates
/// inside `[0, 10)`; then slot `(x, y)` of the grid is overwritten by `cell`,
/// every other slot and field is kept, and the updated record is returned
/// for the caller to persist. A decode failure or an out-of-range coordinate
/// leaves the tile untouched: the write is atomic, so the caller never sees
/// a partial mutation.
pub fn execute(tile: &mut Tile, args_p: &Vec<u8>) -> (r: Result<Tile, SystemError>)
    ensures
        match spec_decode_tile_args(args_p@) {
            Some((x, y, c)) => {
                if 0 <= x < 10 && 0 <= y < 10 {
                    &&& r matches Ok(t)
                    &&& t == *final(tile)
                    &&& final(tile).grid == grid_with_cell(old(tile).grid, x, y, c)
                    &&& final(tile).x == old(tile).x
                    &&& final(tile).y == old(tile).y
                    &&& final(tile).owner == old(tile).owner
                } else {
                    &&& r == Err::<Tile, SystemError>(SystemError::IndexOutOfRange)
                    &&& *final(tile) == *old(tile)
                }
            },
            None => {
                &&& r == Err::<Tile, SystemError>(SystemError::DecodeFailure)
                &&& *final(tile) == *old(tile)
            },
        },
{
    if args_p.len() != 17 {
        return Err(SystemError::DecodeFailure);
    }
    let cell = match decode_cell(args_p[16]) {
        Some(c) => c,
        None => {
            return Err(SystemError::DecodeFailure);
        },
    };
    let x = read_le_i64(args_p, 0);
    let y = read_le_i64(args_p, 8);

    if !(0 <= x && x < 10 && 0 <= y && y < 10) {
        return Err(SystemError::IndexOutOfRange);
    }

    let xi = x as usize;
    let yi = y as usize;
    let mut row = tile.grid.cells[xi];
    row[yi] = cell;
    tile.grid.cells[xi] = row;

    Ok(*tile)
}

/// Writing the same marker to the same slot twice is idempotent: the grid
/// after two writes of `(x, y, c)` is the grid after one.
pub proof fn lemma_tile_mutation_idempotent(g: Grid, x: int, y: int, c: Cell)
    requires
        0 <= x < 10,
        0 <= y < 10,
    ensures
        grid_with_cell(grid_with_cell(g, x, y, c), x, y, c) == grid_with_cell(g, x, y, c),
{
    let row1 = vstd::array::spec_array_update(g.cells[x], y, c);
    let g1 = grid_with_cell(g, x, y, c);
    let row2 = vstd::array::spec_array_update(g1.cells[x], y, c);
    let g2 = grid_with_cell(g1, x, y, c);
    assert(g1.cells[x] == row1);
    assert(row2@ =~= row1@);
    assert(row2 =~= row1);
    assert(g2.cells@ =~= g1.cells@);
    assert(g2.cells =~= g1.cells);
}

} // verus!
