use snake_rust::board::{Board, Cell};

#[test]
fn grid_test() {
    let mut board: Board = Board::new(10, 10);
    board.set_cell(3, 4, Cell::Apple);
    assert!(
        board.get_cell(3, 4) == Cell::Apple
            && board.get_cell(4, 3) != Cell::Apple
            && board.get_cell(3, 3) != Cell::Apple
            && board.get_cell(2, 4) != Cell::Apple
    );
}

#[test]
fn new_board_is_empty() {
    let board = Board::new(4, 7);
    assert_eq!(board.height(), 4);
    assert_eq!(board.width(), 7);
    for y in 0..4 {
        for x in 0..7 {
            assert_eq!(board.get_cell(y, x), Cell::Empty);
        }
    }
    assert!(!board.is_full());
}

#[test]
fn set_then_get_everywhere() {
    let mut board = Board::new(3, 5);
    board.set_cell(0, 0, Cell::SnakeBody);
    board.set_cell(2, 4, Cell::Apple);
    board.set_cell(1, 2, Cell::SnakeBody);
    board.set_cell(1, 2, Cell::Apple);
    for y in 0..3 {
        for x in 0..5 {
            let expected = match (y, x) {
                (0, 0) => Cell::SnakeBody,
                (2, 4) => Cell::Apple,
                (1, 2) => Cell::Apple,
                _ => Cell::Empty,
            };
            assert_eq!(board.get_cell(y, x), expected);
        }
    }
}

#[test]
fn last_row_and_column_are_in_bounds() {
    let mut board = Board::new(2, 3);
    board.set_cell(1, 2, Cell::SnakeBody);
    assert_eq!(board.get_cell(1, 2), Cell::SnakeBody);
    assert_eq!(board.get_cell(1, 1), Cell::Empty);
}

#[test]
fn full_board_is_detected() {
    let mut board = Board::new(2, 2);
    board.set_cell(0, 0, Cell::SnakeBody);
    board.set_cell(0, 1, Cell::Apple);
    board.set_cell(1, 0, Cell::SnakeBody);
    assert!(!board.is_full());
    assert_eq!(board.first_empty_cell(), Some((1, 1)));
    board.set_cell(1, 1, Cell::SnakeBody);
    assert!(board.is_full());
    assert_eq!(board.first_empty_cell(), None);
}

#[test]
fn first_empty_cell_reads_row_by_row() {
    let mut board = Board::new(3, 3);
    board.set_cell(0, 0, Cell::SnakeBody);
    board.set_cell(0, 1, Cell::SnakeBody);
    board.set_cell(0, 2, Cell::Apple);
    board.set_cell(1, 0, Cell::SnakeBody);
    assert_eq!(board.first_empty_cell(), Some((1, 1)));
}

#[test]
fn apple_goes_to_the_only_empty_cell() {
    let mut board = Board::new(3, 3);
    for y in 0..3 {
        for x in 0..3 {
            if (y, x) != (2, 1) {
                board.set_cell(y, x, Cell::SnakeBody);
            }
        }
    }
    assert_eq!(board.generate_apple(), Some((2, 1)));
    assert_eq!(board.get_cell(2, 1), Cell::Apple);
    assert!(board.is_full());
    assert_eq!(board.generate_apple(), None);
    assert_eq!(board.get_cell(2, 1), Cell::Apple);
}

#[test]
fn apple_lands_on_an_empty_cell_in_bounds() {
    let mut board = Board::new(5, 4);
    board.set_cell(0, 0, Cell::SnakeBody);
    for _ in 0..19 {
        let (y, x) = board.generate_apple().unwrap();
        assert!(y < 5 && x < 4);
        assert_eq!(board.get_cell(y, x), Cell::Apple);
    }
    assert!(board.is_full());
    assert_eq!(board.get_cell(0, 0), Cell::SnakeBody);
    assert_eq!(board.generate_apple(), None);
}

#[test]
fn place_apple_only_on_empty() {
    let mut board = Board::new(2, 2);
    board.set_cell(0, 1, Cell::SnakeBody);
    assert!(!board.place_apple(0, 1));
    assert_eq!(board.get_cell(0, 1), Cell::SnakeBody);
    assert!(board.place_apple(1, 0));
    assert_eq!(board.get_cell(1, 0), Cell::Apple);
    assert!(!board.place_apple(1, 0));
}
