use tetris::board::{empty_grid, CellState};
use tetris::events::{GameEvent, GameState};
use tetris::game::Game;
use tetris::pieces::{Tetromino, TetrominoType};
use tetris::GRID_WIDTH;

#[test]
fn game_over_when_spawn_blocked() {
    let mut grid = empty_grid();
    // Fill the spawn area
    for x in 3..7 {
        grid[0][x] = CellState::Filled(TetrominoType::T);
        grid[1][x] = CellState::Filled(TetrominoType::T);
    }

    let piece = Tetromino::new_at(TetrominoType::O, 0, 10); // Current piece away from spawn
    let mut game = Game::with_grid(grid, piece);

    game.spawn_next_piece();

    assert!(game.is_game_over());
}

#[test]
fn game_over_emits_event() {
    let mut grid = empty_grid();
    for x in 0..GRID_WIDTH {
        grid[0][x] = CellState::Filled(TetrominoType::T);
        grid[1][x] = CellState::Filled(TetrominoType::T);
    }

    let piece = Tetromino::new_at(TetrominoType::O, 0, 10);
    let mut game = Game::with_grid(grid, piece);
    game.take_events();

    game.spawn_next_piece();

    let events = game.take_events();
    assert!(events.contains(&GameEvent::GameOver));
}

#[test]
fn no_moves_after_game_over() {
    let piece = Tetromino::new(TetrominoType::O);
    let mut game = Game::with_grid(empty_grid(), piece);
    game.state = GameState::GameOver;

    assert!(!game.move_piece(-1, 0));
    assert!(!game.rotate_piece(true));
}

#[test]
fn tick_moves_piece_down() {
    let piece = Tetromino::new_at(TetrominoType::O, 4, 0);
    let mut game = Game::with_grid(empty_grid(), piece);

    game.tick();

    assert_eq!(game.current_piece.position.y, 1);
}

#[test]
fn tick_locks_piece_at_bottom() {
    let piece = Tetromino::new_at(TetrominoType::O, 4, tetris::GRID_HEIGHT as i16 - 2);
    let mut game = Game::with_grid(empty_grid(), piece);
    game.take_events();

    game.tick();

    let events = game.take_events();
    assert!(events.contains(&GameEvent::PieceLocked));
}

#[test]
fn tick_does_nothing_when_game_over() {
    let piece = Tetromino::new_at(TetrominoType::O, 4, 5);
    let mut game = Game::with_grid(empty_grid(), piece);
    game.state = GameState::GameOver;
    let initial_y = game.current_piece.position.y;

    game.tick();

    assert_eq!(game.current_piece.position.y, initial_y);
}
