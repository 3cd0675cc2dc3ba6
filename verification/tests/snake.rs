use snake::config::{snake_head_color, snake_tail_color};
use snake::{Direction, Position, Rgb, Snake, Tile};

fn snake_at(x: i32, y: i32, direction: Direction, tail: &[(i32, i32)]) -> Snake {
    Snake {
        head: Tile::new(x, y, snake_head_color()),
        tail: tail.iter().map(|&(x, y)| Tile::new(x, y, snake_tail_color())).collect(),
        direction,
    }
}

fn tail_cells(snake: &Snake) -> Vec<(i32, i32)> {
    snake.tail.iter().map(|tile| (tile.position.x, tile.position.y)).collect()
}

#[test]
fn colours_of_the_snake() {
    assert_eq!(snake_head_color(), Rgb::new(5, 185, 190));
    assert_eq!(snake_tail_color(), Rgb::new(25, 200, 50));
    let color = Rgb::new(1, 2, 3);
    assert_eq!(color.r, 1);
    assert_eq!(color.g, 2);
    assert_eq!(color.b, 3);
}

#[test]
fn tile_holds_position_and_colour() {
    let tile = Tile::new(3, 4, Rgb::new(9, 8, 7));
    assert_eq!(tile.position, Position::new(3, 4));
    assert_eq!(tile.color, Rgb::new(9, 8, 7));
}

#[test]
fn new_snake_starts_at_seven_five_heading_up() {
    let snake = Snake::new();
    assert_eq!(snake.head.position, Position::new(7, 5));
    assert_eq!(snake.head.color, snake_head_color());
    assert_eq!(snake.direction, Direction::Up);
    assert!(snake.tail.is_empty());
}

#[test]
fn default_snake_is_a_new_snake() {
    let snake = Snake::default();
    assert_eq!(snake.head.position, Position::new(7, 5));
    assert_eq!(snake.direction, Direction::Up);
    assert!(snake.tail.is_empty());
}

#[test]
fn clone_keeps_every_segment() {
    let snake = snake_at(3, 3, Direction::Left, &[(4, 3), (5, 3)]);
    let copy = snake.clone();
    assert_eq!(copy.head, snake.head);
    assert_eq!(copy.tail, snake.tail);
    assert_eq!(copy.direction, snake.direction);
}

#[test]
fn next_head_position_in_each_direction() {
    assert_eq!(
        snake_at(7, 5, Direction::Up, &[]).get_next_head_position(),
        Position::new(7, 4)
    );
    assert_eq!(
        snake_at(7, 5, Direction::Down, &[]).get_next_head_position(),
        Position::new(7, 6)
    );
    assert_eq!(
        snake_at(7, 5, Direction::Left, &[]).get_next_head_position(),
        Position::new(6, 5)
    );
    assert_eq!(
        snake_at(7, 5, Direction::Right, &[]).get_next_head_position(),
        Position::new(8, 5)
    );
}

#[test]
fn next_head_position_leaves_the_snake_as_it_is() {
    let snake = snake_at(2, 2, Direction::Right, &[(1, 2), (0, 2)]);
    let before = snake.clone();
    let first = snake.get_next_head_position();
    let second = snake.get_next_head_position();
    assert_eq!(first, second);
    assert_eq!(snake.head, before.head);
    assert_eq!(snake.tail, before.tail);
    assert_eq!(snake.direction, before.direction);
}

#[test]
fn grow_tail_of_a_bare_head_in_each_direction() {
    let mut snake = snake_at(7, 5, Direction::Up, &[]);
    snake.grow_tail();
    assert_eq!(tail_cells(&snake), vec![(7, 6)]);

    let mut snake = snake_at(7, 5, Direction::Down, &[]);
    snake.grow_tail();
    assert_eq!(tail_cells(&snake), vec![(7, 4)]);

    let mut snake = snake_at(7, 5, Direction::Left, &[]);
    snake.grow_tail();
    assert_eq!(tail_cells(&snake), vec![(8, 5)]);

    let mut snake = snake_at(7, 5, Direction::Right, &[]);
    snake.grow_tail();
    assert_eq!(tail_cells(&snake), vec![(6, 5)]);
}

#[test]
fn grow_tail_adds_one_segment_behind_the_last() {
    let mut snake = snake_at(7, 5, Direction::Right, &[(6, 5), (6, 6)]);
    snake.grow_tail();
    assert_eq!(tail_cells(&snake), vec![(6, 5), (6, 6), (5, 6)]);
    assert_eq!(snake.tail[2].color, snake_tail_color());
    assert_eq!(snake.head.position, Position::new(7, 5));
    assert_eq!(snake.direction, Direction::Right);
}

#[test]
fn grow_tail_may_leave_the_grid() {
    let mut snake = snake_at(7, 8, Direction::Up, &[]);
    snake.grow_tail();
    snake.grow_tail();
    assert_eq!(tail_cells(&snake), vec![(7, 9), (7, 10)]);
}

#[test]
fn move_forward_without_a_tail() {
    let mut snake = Snake::new();
    snake.move_forward();
    assert_eq!(snake.head.position, Position::new(7, 4));
    assert!(snake.tail.is_empty());
    assert_eq!(snake.direction, Direction::Up);
}

#[test]
fn move_forward_lets_the_tail_follow() {
    let mut snake = snake_at(5, 5, Direction::Up, &[(4, 5), (3, 5), (3, 6)]);
    snake.move_forward();
    assert_eq!(snake.head.position, Position::new(5, 4));
    assert_eq!(tail_cells(&snake), vec![(5, 5), (4, 5), (3, 5)]);
}

#[test]
fn move_forward_keeps_the_colours() {
    let mut snake = snake_at(5, 5, Direction::Down, &[(5, 4)]);
    snake.tail[0].color = Rgb::new(1, 1, 1);
    snake.move_forward();
    assert_eq!(snake.head, Tile::new(5, 6, snake_head_color()));
    assert_eq!(snake.tail, vec![Tile::new(5, 5, Rgb::new(1, 1, 1))]);
}

#[test]
fn move_forward_may_leave_the_grid() {
    let mut snake = snake_at(0, 5, Direction::Left, &[(1, 5)]);
    snake.move_forward();
    assert_eq!(snake.head.position, Position::new(-1, 5));
    assert!(snake.head_collides());
}

#[test]
fn position_collides_on_the_tail() {
    let snake = snake_at(5, 5, Direction::Up, &[(5, 6), (6, 6)]);
    assert!(snake.position_collides(&Position::new(5, 6)));
    assert!(snake.position_collides(&Position::new(6, 6)));
    assert!(!snake.position_collides(&Position::new(5, 4)));
    assert!(!snake.position_collides(&Position::new(7, 6)));
}

#[test]
fn position_collides_off_the_grid() {
    let snake = snake_at(0, 0, Direction::Up, &[]);
    assert!(snake.position_collides(&Position::new(-1, 0)));
    assert!(snake.position_collides(&Position::new(0, -1)));
    assert!(snake.position_collides(&Position::new(15, 3)));
    assert!(snake.position_collides(&Position::new(3, 9)));
    assert!(!snake.position_collides(&Position::new(14, 8)));
}

#[test]
fn position_of_the_head_alone_is_no_collision() {
    let snake = snake_at(5, 5, Direction::Up, &[(5, 6)]);
    assert!(!snake.position_collides(&Position::new(5, 5)));
    assert!(!snake.head_collides());
}

#[test]
fn head_collides_with_the_tail() {
    let snake = snake_at(5, 5, Direction::Up, &[(5, 6), (6, 6), (6, 5), (5, 5)]);
    assert!(snake.head_collides());
}

#[test]
fn head_collides_with_each_wall() {
    assert!(snake_at(-1, 4, Direction::Left, &[]).head_collides());
    assert!(snake_at(15, 4, Direction::Right, &[]).head_collides());
    assert!(snake_at(4, -1, Direction::Up, &[]).head_collides());
    assert!(snake_at(4, 9, Direction::Down, &[]).head_collides());
}

#[test]
fn head_on_the_rim_does_not_collide() {
    assert!(!snake_at(0, 0, Direction::Left, &[(1, 0)]).head_collides());
    assert!(!snake_at(14, 8, Direction::Right, &[(13, 8)]).head_collides());
}

#[test]
fn tail_within_reach_of_the_grid() {
    assert!(Snake::new().is_within_reach());
    assert!(snake_at(7, 8, Direction::Up, &[(7, 9), (7, 10), (7, 11)]).is_within_reach());
    assert!(snake_at(0, 0, Direction::Right, &[(-1, 0), (-2, 0), (-3, -3)]).is_within_reach());
    assert!(snake_at(14, 8, Direction::Left, &[(15, 9), (16, 10)]).is_within_reach());
    assert!(!snake_at(7, 8, Direction::Up, &[(7, 10)]).is_within_reach());
    assert!(!snake_at(0, 0, Direction::Right, &[(-1, 0), (-3, 0)]).is_within_reach());
    assert!(!snake_at(0, 0, Direction::Right, &[(0, 1), (17, 0)]).is_within_reach());
    assert!(!snake_at(0, 0, Direction::Right, &[(0, -2)]).is_within_reach());
}
