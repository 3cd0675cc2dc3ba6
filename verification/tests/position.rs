use snake::config::{TILE_COUNT_X, TILE_COUNT_Y};
use snake::{Direction, Position};

#[test]
fn grid_is_fifteen_by_nine() {
    assert_eq!(TILE_COUNT_X, 15);
    assert_eq!(TILE_COUNT_Y, 9);
}

#[test]
fn new_position_holds_its_coordinates() {
    let position = Position::new(3, -4);
    assert_eq!(position.x, 3);
    assert_eq!(position.y, -4);
}

#[test]
fn neighbour_in_each_direction() {
    let position = Position::new(7, 5);
    assert_eq!(position.neighbour(Direction::Up), Position::new(7, 4));
    assert_eq!(position.neighbour(Direction::Down), Position::new(7, 6));
    assert_eq!(position.neighbour(Direction::Left), Position::new(6, 5));
    assert_eq!(position.neighbour(Direction::Right), Position::new(8, 5));
}

#[test]
fn neighbour_may_leave_the_grid() {
    assert_eq!(Position::new(0, 0).neighbour(Direction::Left), Position::new(-1, 0));
    assert_eq!(Position::new(0, 0).neighbour(Direction::Up), Position::new(0, -1));
    assert_eq!(Position::new(14, 8).neighbour(Direction::Right), Position::new(15, 8));
    assert_eq!(Position::new(14, 8).neighbour(Direction::Down), Position::new(14, 9));
}

#[test]
fn corners_are_in_bounds() {
    assert!(!Position::new(0, 0).is_out_of_bounds());
    assert!(!Position::new(14, 0).is_out_of_bounds());
    assert!(!Position::new(0, 8).is_out_of_bounds());
    assert!(!Position::new(14, 8).is_out_of_bounds());
    assert!(!Position::new(7, 5).is_out_of_bounds());
}

#[test]
fn cells_next_to_the_grid_are_out_of_bounds() {
    assert!(Position::new(-1, 0).is_out_of_bounds());
    assert!(Position::new(0, -1).is_out_of_bounds());
    assert!(Position::new(15, 0).is_out_of_bounds());
    assert!(Position::new(0, 9).is_out_of_bounds());
    assert!(Position::new(15, 9).is_out_of_bounds());
    assert!(Position::new(i32::MIN, 4).is_out_of_bounds());
    assert!(Position::new(4, i32::MAX).is_out_of_bounds());
}

#[test]
fn every_cell_of_the_grid_is_in_bounds() {
    for x in 0..15 {
        for y in 0..9 {
            assert!(!Position::new(x, y).is_out_of_bounds());
        }
    }
}
