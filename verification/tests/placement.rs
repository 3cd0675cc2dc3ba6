use snake::config::{apple_color, snake_head_color, snake_tail_color, MAX_TAIL_LEN};
use snake::screen::game::pick_position;
use snake::{Direction, DrawableCollection, GameScreen, Position, Rgb, Snake, Tile};

fn game_with(snake: Snake, apples: &[(i32, i32)]) -> GameScreen {
    let mut game = GameScreen::try_new(0, 0).unwrap();
    game.snake = snake;
    game.apples = DrawableCollection::from(
        apples.iter().map(|&(x, y)| Tile::new(x, y, apple_color())).collect::<Vec<Tile>>(),
    );
    game
}

fn snake_at(x: i32, y: i32, direction: Direction, tail: &[(i32, i32)]) -> Snake {
    Snake {
        head: Tile::new(x, y, snake_head_color()),
        tail: tail.iter().map(|&(x, y)| Tile::new(x, y, snake_tail_color())).collect(),
        direction,
    }
}

fn all_cells() -> Vec<(i32, i32)> {
    let mut cells = Vec::new();
    for x in 0..15 {
        for y in 0..9 {
            cells.push((x, y));
        }
    }
    cells
}

#[test]
fn colour_of_the_apples() {
    assert_eq!(apple_color(), Rgb::new(250, 40, 25));
}

#[test]
fn new_game_without_apples_leaves_all_but_two_cells_free() {
    let game = GameScreen::try_new(0, 0).unwrap();
    let positions = game.all_possible_apple_positions();
    assert_eq!(positions.len(), 15 * 9 - 2);
    assert!(!positions.contains(&Position::new(7, 5)));
    assert!(!positions.contains(&Position::new(7, 4)));
}

#[test]
fn possible_positions_come_column_by_column() {
    let game = GameScreen::try_new(0, 0).unwrap();
    let positions = game.all_possible_apple_positions();
    let expected: Vec<Position> = all_cells()
        .into_iter()
        .filter(|&cell| cell != (7, 5) && cell != (7, 4))
        .map(|(x, y)| Position::new(x, y))
        .collect();
    assert_eq!(positions, expected);
    assert_eq!(positions[0], Position::new(0, 0));
    assert_eq!(positions[1], Position::new(0, 1));
    assert_eq!(positions[9], Position::new(1, 0));
    assert_eq!(positions[positions.len() - 1], Position::new(14, 8));
}

#[test]
fn possible_positions_leave_out_snake_lookahead_and_apples() {
    let game = game_with(
        snake_at(3, 3, Direction::Right, &[(2, 3), (2, 4), (2, 5)]),
        &[(0, 0), (14, 8), (9, 2)],
    );
    let positions = game.all_possible_apple_positions();
    let taken = [(3, 3), (4, 3), (2, 3), (2, 4), (2, 5), (0, 0), (14, 8), (9, 2)];
    assert_eq!(positions.len(), 15 * 9 - taken.len());
    for (x, y) in taken {
        assert!(!positions.contains(&Position::new(x, y)));
    }
    for (x, y) in all_cells() {
        if !taken.contains(&(x, y)) {
            assert!(positions.contains(&Position::new(x, y)));
        }
    }
}

#[test]
fn lookahead_off_the_grid_takes_no_cell() {
    let game = game_with(snake_at(0, 0, Direction::Up, &[(0, 1)]), &[]);
    let positions = game.all_possible_apple_positions();
    assert_eq!(positions.len(), 15 * 9 - 2);
    assert_eq!(positions[0], Position::new(0, 2));
}

#[test]
fn tail_off_the_grid_takes_no_cell() {
    let game = GameScreen::try_new(5, 0).unwrap();
    assert_eq!(
        game.tail_positions(),
        vec![
            Position::new(7, 6),
            Position::new(7, 7),
            Position::new(7, 8),
            Position::new(7, 9),
            Position::new(7, 10)
        ]
    );
    assert_eq!(game.all_possible_apple_positions().len(), 15 * 9 - 5);
}

#[test]
fn pick_position_takes_the_candidate_at_the_index() {
    let candidates = vec![Position::new(1, 1), Position::new(2, 2), Position::new(3, 3)];
    assert_eq!(pick_position(&candidates, 0), Some(Position::new(1, 1)));
    assert_eq!(pick_position(&candidates, 2), Some(Position::new(3, 3)));
    assert_eq!(pick_position(&candidates, 3), None);
    assert_eq!(pick_position(&Vec::new(), 0), None);
}

#[test]
fn chosen_position_is_always_a_possible_one() {
    let game = game_with(snake_at(3, 3, Direction::Right, &[(2, 3)]), &[(5, 5)]);
    let possible = game.all_possible_apple_positions();
    for _ in 0..200 {
        let chosen = game.choose_apple_position().unwrap();
        assert!(possible.contains(&chosen));
    }
}

#[test]
fn only_free_cell_is_chosen() {
    let apples: Vec<(i32, i32)> = all_cells()
        .into_iter()
        .filter(|&cell| cell != (7, 5) && cell != (7, 4) && cell != (11, 2))
        .collect();
    let game = game_with(Snake::new(), &apples);
    assert_eq!(game.all_possible_apple_positions(), vec![Position::new(11, 2)]);
    for _ in 0..20 {
        assert_eq!(game.choose_apple_position(), Some(Position::new(11, 2)));
    }
}

#[test]
fn every_free_cell_can_be_chosen() {
    let apples: Vec<(i32, i32)> = all_cells()
        .into_iter()
        .filter(|&cell| cell != (7, 5) && cell != (7, 4) && cell != (0, 0) && cell != (14, 8))
        .collect();
    let game = game_with(Snake::new(), &apples);
    let mut first = false;
    let mut last = false;
    for _ in 0..400 {
        match game.choose_apple_position() {
            Some(position) if position == Position::new(0, 0) => first = true,
            Some(position) if position == Position::new(14, 8) => last = true,
            other => panic!("unexpected choice {:?}", other),
        }
    }
    assert!(first);
    assert!(last);
}

#[test]
fn full_board_has_no_position() {
    let apples: Vec<(i32, i32)> =
        all_cells().into_iter().filter(|&cell| cell != (7, 5) && cell != (7, 4)).collect();
    let mut game = game_with(Snake::new(), &apples);
    assert!(game.all_possible_apple_positions().is_empty());
    assert_eq!(game.choose_apple_position(), None);
    assert!(game.spawn_apple().is_none());
    assert_eq!(game.apples.len(), 15 * 9 - 2);
}

#[test]
fn spawn_apple_adds_the_apple_it_returns() {
    let mut game = game_with(snake_at(3, 3, Direction::Right, &[(2, 3)]), &[(5, 5)]);
    let possible = game.all_possible_apple_positions();
    let apple = *game.spawn_apple().unwrap();
    assert_eq!(apple.color, apple_color());
    assert!(possible.contains(&apple.position));
    assert_eq!(game.apples.len(), 2);
    assert_eq!(game.apples.get(0), Some(&Tile::new(5, 5, apple_color())));
    assert_eq!(game.apples.get(1), Some(&apple));
    assert_eq!(game.food_positions(), vec![Position::new(5, 5), apple.position]);
}

#[test]
fn spawned_apples_fill_the_board_without_overlap() {
    let mut game = GameScreen::try_new(2, 0).unwrap();
    let mut spawned = 0;
    while game.spawn_apple().is_some() {
        spawned += 1;
    }
    assert_eq!(spawned, 15 * 9 - 4);
    let positions = game.food_positions();
    for (i, position) in positions.iter().enumerate() {
        assert!(!position.is_out_of_bounds());
        assert_ne!(*position, Position::new(7, 5));
        assert_ne!(*position, Position::new(7, 4));
        assert_ne!(*position, Position::new(7, 6));
        assert_ne!(*position, Position::new(7, 7));
        assert!(!positions[..i].contains(position));
    }
}

#[test]
fn new_game_places_the_apples_it_was_asked_for() {
    let game = GameScreen::try_new(3, 4).unwrap();
    assert_eq!(game.apples.len(), 4);
    let positions = game.food_positions();
    for (i, position) in positions.iter().enumerate() {
        assert!(!position.is_out_of_bounds());
        assert_ne!(*position, game.head_position());
        assert_ne!(*position, game.snake.get_next_head_position());
        assert!(!game.tail_positions().contains(position));
        assert!(!positions[..i].contains(position));
        assert_eq!(game.apples[i].color, apple_color());
    }
}

#[test]
fn new_game_places_no_more_apples_than_cells_are_free() {
    let game = GameScreen::try_new(0, 1000).unwrap();
    assert_eq!(game.apples.len(), 15 * 9 - 2);
    assert!(game.all_possible_apple_positions().is_empty());
}

#[test]
fn new_game_refuses_a_start_size_over_the_limit() {
    assert_eq!(MAX_TAIL_LEN, 0x7fff_0000);
    assert!(GameScreen::try_new(0x7fff_0001, 1).is_none());
    assert!(GameScreen::try_new(u32::MAX, 0).is_none());
    assert!(GameScreen::try_new(1000, 1).is_some());
}
