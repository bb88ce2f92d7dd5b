use grid_world::player::Facing;
use grid_world::tile::{Cell, Grid};

#[test]
fn fresh_agent_faces_down() {
    assert_eq!(Facing::default(), Facing::Down);
}

#[test]
fn fresh_cell_is_empty() {
    assert_eq!(Cell::default(), Cell::Empty);
}

#[test]
fn fresh_grid_is_all_empty() {
    let g = Grid::default();
    for i in 0..10 {
        for j in 0..10 {
            assert_eq!(g.read_cell(i, j), Cell::Empty);
        }
    }
}
