use snake_rust::game::Direction;
use snake_rust::snake::{conflict_route, opposite_direction, same_direction, Glyph, Snake};

#[test]
fn new_snake_starts_at_ten_ten_heading_right() {
    let snake = Snake::new(19, 19);
    assert_eq!(snake.head(), (10, 10));
    assert_eq!(*snake.get_direction(), Direction::Right);
    assert_eq!(snake.body(), &vec![(10, 10)]);
    assert_eq!(snake.max_y(), 19);
    assert_eq!(snake.max_x(), 19);
    assert_eq!(snake.show_snake_head(), Glyph { row: 10, col: 10, ch: '@' });
}

#[test]
fn reversal_and_repeat_are_refused() {
    let mut snake = Snake::new(19, 19);
    snake.change_direction(&Direction::Left);
    assert_eq!(*snake.get_direction(), Direction::Right);
    snake.change_direction(&Direction::Right);
    assert_eq!(*snake.get_direction(), Direction::Right);
}

#[test]
fn perpendicular_turns_are_taken() {
    let mut snake = Snake::new(19, 19);
    snake.change_direction(&Direction::Up);
    assert_eq!(*snake.get_direction(), Direction::Up);
    let mut snake = Snake::new(19, 19);
    snake.change_direction(&Direction::Down);
    assert_eq!(*snake.get_direction(), Direction::Down);
    snake.change_direction(&Direction::Up);
    assert_eq!(*snake.get_direction(), Direction::Down);
    snake.change_direction(&Direction::Left);
    assert_eq!(*snake.get_direction(), Direction::Left);
}

#[test]
fn every_direction_pair() {
    let all = [Direction::Up, Direction::Down, Direction::Left, Direction::Right];
    for &cur in all.iter() {
        for &req in all.iter() {
            let opposite = matches!(
                (cur, req),
                (Direction::Up, Direction::Down)
                    | (Direction::Down, Direction::Up)
                    | (Direction::Left, Direction::Right)
                    | (Direction::Right, Direction::Left)
            );
            assert_eq!(opposite_direction(&cur, &req), opposite);
            assert_eq!(same_direction(&cur, &req), cur == req);
            assert_eq!(conflict_route(&cur, &req), opposite || cur == req);
        }
    }
}

#[test]
fn vertical_wrap_around() {
    let mut snake = Snake::new(19, 19);
    snake.change_direction(&Direction::Up);
    for _ in 0..9 {
        snake.keep_moving_one_step();
    }
    assert_eq!(snake.head(), (1, 10));
    let vacated = snake.keep_moving_one_step();
    assert_eq!(vacated, Glyph { row: 1, col: 10, ch: '.' });
    assert_eq!(snake.head(), (18, 10));
    snake.change_direction(&Direction::Left);
    snake.change_direction(&Direction::Down);
    assert_eq!(*snake.get_direction(), Direction::Down);
    snake.keep_moving_one_step();
    assert_eq!(snake.head(), (1, 10));
}

#[test]
fn horizontal_steps_of_two_and_wrap() {
    let mut snake = Snake::new(19, 19);
    let mut cols = Vec::new();
    for _ in 0..6 {
        snake.keep_moving_one_step();
        cols.push(snake.head().1);
    }
    assert_eq!(cols, vec![12, 14, 16, 18, 1, 3]);
    let mut snake = Snake::new(19, 20);
    let mut cols = Vec::new();
    for _ in 0..6 {
        snake.keep_moving_one_step();
        cols.push(snake.head().1);
    }
    assert_eq!(cols, vec![12, 14, 16, 18, 19, 1]);
}

#[test]
fn left_steps_stop_at_column_one_then_wrap() {
    let mut snake = Snake::new(19, 20);
    snake.change_direction(&Direction::Up);
    snake.change_direction(&Direction::Left);
    let mut cols = Vec::new();
    for _ in 0..7 {
        snake.keep_moving_one_step();
        cols.push(snake.head().1);
    }
    assert_eq!(cols, vec![8, 6, 4, 2, 1, 19, 17]);
    let mut snake = Snake::new(19, 19);
    snake.change_direction(&Direction::Down);
    snake.change_direction(&Direction::Left);
    for _ in 0..5 {
        snake.keep_moving_one_step();
    }
    assert_eq!(snake.head(), (10, 1));
    snake.keep_moving_one_step();
    assert_eq!(snake.head(), (10, 18));
}
