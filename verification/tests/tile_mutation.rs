use grid_world::errors::SystemError;
use grid_world::identity::Pubkey;
use grid_world::tile::{Cell, Grid, Tile};
use grid_world::update_tile::execute;

fn tile() -> Tile {
    Tile { x: 40, y: -2, owner: Pubkey { bytes: [9; 32] }, grid: Grid::default() }
}

/// The tile mutation argument buffer: two eight-byte little-endian signed
/// coordinates, then one cell discriminant byte.
fn encode_args(x: i64, y: i64, cell_tag: u8) -> Vec<u8> {
    let mut out = Vec::new();
    out.extend_from_slice(&x.to_le_bytes());
    out.extend_from_slice(&y.to_le_bytes());
    out.push(cell_tag);
    out
}

#[test]
fn tile_writes_one_cell() {
    // Writing Egg at (3, 4) changes that slot and no other.
    let mut t = tile();
    let r = execute(&mut t, &encode_args(3, 4, 3));
    for i in 0..10 {
        for j in 0..10 {
            let expected = if (i, j) == (3, 4) { Cell::Egg } else { Cell::Empty };
            assert_eq!(t.grid.read_cell(i, j), expected);
        }
    }
    assert_eq!((t.x, t.y, t.owner), (40, -2, Pubkey { bytes: [9; 32] }));
    assert_eq!(r, Ok(t));
}

#[test]
fn tile_overwrite_discards_prior_marker() {
    // Any marker may overwrite any other: Empty over Egg is legal.
    let mut t = tile();
    assert!(execute(&mut t, &encode_args(5, 5, 3)).is_ok());
    assert_eq!(t.grid.read_cell(5, 5), Cell::Egg);
    assert!(execute(&mut t, &encode_args(5, 5, 0)).is_ok());
    assert_eq!(t.grid.read_cell(5, 5), Cell::Empty);
}

#[test]
fn tile_same_write_twice_is_idempotent() {
    let mut once = tile();
    assert!(execute(&mut once, &encode_args(2, 7, 1)).is_ok());
    let mut twice = tile();
    assert!(execute(&mut twice, &encode_args(2, 7, 1)).is_ok());
    assert!(execute(&mut twice, &encode_args(2, 7, 1)).is_ok());
    assert_eq!(once.grid, twice.grid);
    assert_eq!(once, twice);
}

#[test]
fn tile_index_out_of_range_leaves_tile_unchanged() {
    let before = tile();
    let mut t = before;
    assert_eq!(execute(&mut t, &encode_args(10, 0, 1)), Err(SystemError::IndexOutOfRange));
    assert_eq!(t, before);
    assert_eq!(t.grid, before.grid);

    let mut t = before;
    assert_eq!(execute(&mut t, &encode_args(0, 10, 1)), Err(SystemError::IndexOutOfRange));
    assert_eq!(t, before);

    let mut t = before;
    assert_eq!(execute(&mut t, &encode_args(-1, 0, 1)), Err(SystemError::IndexOutOfRange));
    assert_eq!(t, before);

    let mut t = before;
    assert_eq!(execute(&mut t, &encode_args(0, -1, 1)), Err(SystemError::IndexOutOfRange));
    assert_eq!(t, before);
}

#[test]
fn tile_decode_failure_leaves_tile_unchanged() {
    let before = tile();

    // Truncated buffer: sixteen bytes, the cell discriminant missing.
    let mut t = before;
    let mut args = encode_args(1, 1, 1);
    args.pop();
    assert_eq!(execute(&mut t, &args), Err(SystemError::DecodeFailure));
    assert_eq!(t, before);

    // Cell discriminant outside the known range.
    let mut t = before;
    assert_eq!(execute(&mut t, &encode_args(1, 1, 4)), Err(SystemError::DecodeFailure));
    assert_eq!(t, before);

    // Trailing byte after the record.
    let mut t = before;
    let mut args = encode_args(1, 1, 1);
    args.push(0);
    assert_eq!(execute(&mut t, &args), Err(SystemError::DecodeFailure));
    assert_eq!(t, before);
}

#[test]
fn tile_decode_failure_beats_range_check() {
    // A malformed buffer is a decode failure even when its coordinates are
    // also out of range.
    let mut t = tile();
    assert_eq!(execute(&mut t, &encode_args(10, 10, 4)), Err(SystemError::DecodeFailure));
}
