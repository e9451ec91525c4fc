use tetris::board::{empty_grid, CellState};
use tetris::events::GameEvent;
use tetris::game::Game;
use tetris::pieces::{Tetromino, TetrominoType};
use tetris::{GRID_HEIGHT, GRID_WIDTH};

#[test]
fn piece_moves_left() {
    let piece = Tetromino::new(TetrominoType::O);
    let mut game = Game::with_grid(empty_grid(), piece);
    let initial_x = game.current_piece.position.x;

    assert!(game.move_piece(-1, 0));
    assert_eq!(game.current_piece.position.x, initial_x - 1);
}

#[test]
fn piece_moves_right() {
    let piece = Tetromino::new(TetrominoType::O);
    let mut game = Game::with_grid(empty_grid(), piece);
    let initial_x = game.current_piece.position.x;

    assert!(game.move_piece(1, 0));
    assert_eq!(game.current_piece.position.x, initial_x + 1);
}

#[test]
fn piece_moves_down() {
    let piece = Tetromino::new(TetrominoType::O);
    let mut game = Game::with_grid(empty_grid(), piece);
    let initial_y = game.current_piece.position.y;

    assert!(game.move_piece(0, 1));
    assert_eq!(game.current_piece.position.y, initial_y + 1);
}

#[test]
fn piece_cannot_move_through_left_wall() {
    let piece = Tetromino::new_at(TetrominoType::O, 0, 5);
    let mut game = Game::with_grid(empty_grid(), piece);

    assert!(!game.move_piece(-1, 0));
    assert_eq!(game.current_piece.position.x, 0);
}

#[test]
fn piece_cannot_move_through_right_wall() {
    // O piece is 2 wide, so max x is GRID_WIDTH - 2
    let piece = Tetromino::new_at(TetrominoType::O, GRID_WIDTH as i16 - 2, 5);
    let mut game = Game::with_grid(empty_grid(), piece);

    assert!(!game.move_piece(1, 0));
    assert_eq!(game.current_piece.position.x, GRID_WIDTH as i16 - 2);
}

#[test]
fn piece_cannot_move_through_floor() {
    // O piece is 2 tall, so max y is GRID_HEIGHT - 2
    let piece = Tetromino::new_at(TetrominoType::O, 4, GRID_HEIGHT as i16 - 2);
    let mut game = Game::with_grid(empty_grid(), piece);

    assert!(!game.move_piece(0, 1));
    assert_eq!(game.current_piece.position.y, GRID_HEIGHT as i16 - 2);
}

#[test]
fn piece_cannot_move_into_filled_cell() {
    let mut grid = empty_grid();
    grid[10][5] = CellState::Filled(TetrominoType::O);

    let piece = Tetromino::new_at(TetrominoType::O, 4, 9);
    let mut game = Game::with_grid(grid, piece);

    // Piece occupies (4,9), (5,9), (4,10), (5,10)
    // Trying to move right would put (5,9) and (5,10) at (6,9) and (6,10)
    // But (5,10) is filled, so moving down should fail
    assert!(!game.move_piece(0, 1));
}

#[test]
fn piece_emits_move_event() {
    let piece = Tetromino::new(TetrominoType::O);
    let mut game = Game::with_grid(empty_grid(), piece);
    game.take_events(); // Clear initial events

    game.move_piece(-1, 0);

    let events = game.take_events();
    assert!(events.contains(&GameEvent::PieceMoved));
}
