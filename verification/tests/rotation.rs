use tetris::board::empty_grid;
use tetris::events::GameEvent;
use tetris::game::Game;
use tetris::pieces::{Position, Tetromino, TetrominoType};

#[test]
fn piece_rotates_clockwise() {
    let piece = Tetromino::new_at(TetrominoType::T, 4, 5);
    let mut game = Game::with_grid(empty_grid(), piece);
    let initial_rotation = game.current_piece.rotation;

    assert!(game.rotate_piece(true));
    assert_eq!(game.current_piece.rotation, (initial_rotation + 1) % 4);
}

#[test]
fn piece_rotates_counter_clockwise() {
    let piece = Tetromino::new_at(TetrominoType::T, 4, 5);
    let mut game = Game::with_grid(empty_grid(), piece);

    assert!(game.rotate_piece(false));
    assert_eq!(game.current_piece.rotation, 3); // 0 - 1 wraps to 3
}

#[test]
fn o_piece_rotation_is_noop() {
    let piece = Tetromino::new_at(TetrominoType::O, 4, 5);
    let mut game = Game::with_grid(empty_grid(), piece);
    let initial_blocks: Vec<Position> = game.current_piece.blocks();

    game.rotate_piece(true);
    let after_blocks: Vec<Position> = game.current_piece.blocks();

    // O piece looks the same after rotation
    assert_eq!(initial_blocks, after_blocks);
}

#[test]
fn wall_kick_right() {
    // Place T piece against left wall, rotation should kick it right
    let piece = Tetromino::new_at(TetrominoType::T, 0, 5);
    let mut game = Game::with_grid(empty_grid(), piece);

    // This rotation might need a wall kick
    assert!(game.rotate_piece(true));
}

#[test]
fn rotation_emits_event() {
    let piece = Tetromino::new_at(TetrominoType::T, 4, 5);
    let mut game = Game::with_grid(empty_grid(), piece);
    game.take_events();

    game.rotate_piece(true);

    let events = game.take_events();
    assert!(events.contains(&GameEvent::PieceRotated));
}
