use tetris::board::{empty_grid, CellState};
use tetris::events::{GameEvent, GameState};
use tetris::game::Game;
use tetris::pieces::{Tetromino, TetrominoType};
use tetris::provider::{Provider, SequencePieceProvider};
use tetris::{GRID_HEIGHT, PREVIEW_COUNT, SCORE_SINGLE};

#[test]
fn drain_twice_second_empty() {
    let piece = Tetromino::new(TetrominoType::T);
    let mut game = Game::with_grid(empty_grid(), piece);
    game.move_piece(1, 0);
    game.rotate_piece(true);

    let first = game.take_events();
    assert!(!first.is_empty());

    let second = game.take_events();
    assert!(second.is_empty());
}

#[test]
fn vertical_drop_into_gap_clears_bottom_row() {
    // Empty board, bottom row filled in every column except column 5;
    // a vertical I piece dropped in column 5 completes and clears it.
    let mut grid = empty_grid();
    for x in 0..10 {
        if x != 5 {
            grid[GRID_HEIGHT - 1][x] = CellState::Filled(TetrominoType::T);
        }
    }
    let mut piece = Tetromino::new_at(TetrominoType::I, 5, 0);
    piece.rotation = 1; // vertical
    let mut game = Game::with_grid(grid, piece);
    game.take_events();

    game.hard_drop();

    let events = game.take_events();
    assert!(events.iter().any(|e| matches!(e, GameEvent::LinesCleared(1))));
    assert_eq!(game.lines_cleared, 1);
    assert_eq!(game.score, SCORE_SINGLE * 1);
    // The cleared row reappears empty at the top.
    assert_eq!(game.filled_count_in_row(0), 0);
    // The bottom row now holds only what slid down from the piece itself.
    assert!(!game.is_row_complete(GRID_HEIGHT - 1));
    assert_eq!(game.filled_count_in_row(GRID_HEIGHT - 1), 1);
    assert_eq!(game.grid[GRID_HEIGHT - 1][5], CellState::Filled(TetrominoType::I));
}

#[test]
fn fifth_piece_drawn_wraps_sequence() {
    // With the two-kind sequence [I, O] and a preview of 4, the fifth draw
    // (the first falling piece) wraps around to I again.
    let provider = Provider::Sequence(SequencePieceProvider::new(vec![
        TetrominoType::I,
        TetrominoType::O,
    ]));
    let game = Game::with_provider(provider);

    assert_eq!(game.current_piece.tetromino_type, TetrominoType::I);
    let preview: Vec<_> = game.preview_queue.iter().copied().collect();
    assert_eq!(
        preview,
        vec![TetrominoType::I, TetrominoType::O, TetrominoType::I, TetrominoType::O]
    );
}

#[test]
fn restart_after_game_over_resets_everything() {
    let provider = Provider::Sequence(SequencePieceProvider::new(vec![
        TetrominoType::I,
        TetrominoType::O,
    ]));
    let mut game = Game::with_provider(provider);
    game.score = 700;
    game.lines_cleared = 12;
    game.level = 2;
    game.high_score = 900;
    game.state = GameState::GameOver;
    game.take_events();

    game.restart();

    assert_eq!(game.state, GameState::Playing);
    assert_eq!(game.score, 0);
    assert_eq!(game.lines_cleared, 0);
    assert_eq!(game.level, 1);
    assert_eq!(game.high_score, 900);
    // Drawing continued from the same provider: five kinds were consumed at
    // construction, so the cursor sits on O.
    let preview: Vec<_> = game.preview_queue.iter().copied().collect();
    assert_eq!(
        preview,
        vec![TetrominoType::O, TetrominoType::I, TetrominoType::O, TetrominoType::I]
    );
    assert_eq!(game.current_piece.tetromino_type, TetrominoType::O);
    let events = game.take_events();
    assert_eq!(events, vec![GameEvent::GameRestarted]);
}

#[test]
fn toggle_pause_cycles_and_reports() {
    let piece = Tetromino::new(TetrominoType::S);
    let mut game = Game::with_grid(empty_grid(), piece);
    game.take_events();

    game.toggle_pause();
    assert_eq!(game.state, GameState::Paused);
    game.toggle_pause();
    assert_eq!(game.state, GameState::Playing);

    let events = game.take_events();
    assert_eq!(events, vec![GameEvent::Paused, GameEvent::Unpaused]);

    game.state = GameState::GameOver;
    game.toggle_pause();
    assert_eq!(game.state, GameState::GameOver);
    assert!(game.take_events().is_empty());
}

#[test]
fn paused_game_ignores_gameplay() {
    let piece = Tetromino::new_at(TetrominoType::L, 4, 5);
    let mut game = Game::with_grid(empty_grid(), piece);
    game.toggle_pause();
    game.take_events();

    assert!(!game.move_piece(0, 1));
    assert!(!game.rotate_piece(true));
    game.soft_drop();
    game.hard_drop();
    game.tick();

    assert_eq!(game.current_piece.position.y, 5);
    assert!(game.take_events().is_empty());
}

#[test]
fn spawn_shifts_preview_queue() {
    let provider = Provider::Sequence(SequencePieceProvider::new(vec![
        TetrominoType::T,
        TetrominoType::S,
        TetrominoType::Z,
        TetrominoType::L,
        TetrominoType::J,
        TetrominoType::I,
    ]));
    let mut game = Game::with_provider(provider);
    assert_eq!(game.current_piece.tetromino_type, TetrominoType::J);

    game.spawn_next_piece();

    assert_eq!(game.current_piece.tetromino_type, TetrominoType::T);
    let preview: Vec<_> = game.preview_queue.iter().copied().collect();
    assert_eq!(
        preview,
        vec![TetrominoType::S, TetrominoType::Z, TetrominoType::L, TetrominoType::I]
    );
}

#[test]
fn new_game_starts_playing_with_full_preview() {
    let game = Game::new();
    assert_eq!(game.state, GameState::Playing);
    assert_eq!(game.score, 0);
    assert_eq!(game.lines_cleared, 0);
    assert_eq!(game.level, 1);
    assert_eq!(game.preview_queue.len(), PREVIEW_COUNT);
}

#[test]
fn default_game_is_fresh() {
    let game = Game::default();
    assert_eq!(game.state, GameState::Playing);
    assert_eq!(game.score, 0);
}

#[test]
fn multiple_thresholds_announce_final_level_once() {
    let piece = Tetromino::new(TetrominoType::O);
    let mut game = Game::with_grid(empty_grid(), piece);
    game.take_events();

    game.add_score(25);

    assert_eq!(game.lines_cleared, 25);
    assert_eq!(game.level, 3);
    let events = game.take_events();
    assert_eq!(events, vec![GameEvent::LevelUp(3)]);
}

#[test]
fn unscored_line_counts_still_accumulate() {
    let piece = Tetromino::new(TetrominoType::O);
    let mut game = Game::with_grid(empty_grid(), piece);

    game.add_score(5);

    assert_eq!(game.score, 0);
    assert_eq!(game.lines_cleared, 5);
}

#[test]
fn hard_drop_discards_only_its_own_movement_events() {
    let piece = Tetromino::new_at(TetrominoType::O, 4, 0);
    let mut game = Game::with_grid(empty_grid(), piece);
    game.take_events();
    game.move_piece(1, 0); // an earlier, still-undrained movement event

    game.hard_drop();

    // The drop's own intermediate moves leave no events, but the one pending
    // from the earlier call is untouched.
    let events = game.take_events();
    assert_eq!(events, vec![GameEvent::PieceMoved, GameEvent::PieceLocked]);
}

#[test]
fn tick_interval_shrinks_to_floor() {
    let piece = Tetromino::new(TetrominoType::Z);
    let mut game = Game::with_grid(empty_grid(), piece);

    assert_eq!(game.tick_duration_ms(), 800);
    game.level = 5;
    assert_eq!(game.tick_duration_ms(), 600);
    game.level = 15;
    assert_eq!(game.tick_duration_ms(), 100);
    game.level = 50;
    assert_eq!(game.tick_duration_ms(), 100);
}

#[test]
fn blocked_rotation_changes_nothing() {
    // A horizontal I piece on the top row, with the row below blocked at
    // every column the vertical candidate or any of its five kicks could
    // occupy: the rotation must fail with no mutation and no event.
    let mut grid = empty_grid();
    for x in 1..6 {
        grid[1][x] = CellState::Filled(TetrominoType::T);
    }
    let piece = Tetromino::new_at(TetrominoType::I, 3, 0);
    let mut game = Game::with_grid(grid, piece);
    game.take_events();

    assert!(!game.rotate_piece(true));

    assert_eq!(game.current_piece.rotation, 0);
    assert_eq!(game.current_piece.position.x, 3);
    assert_eq!(game.current_piece.position.y, 0);
    assert!(game.take_events().is_empty());
}

#[test]
fn blocked_spawn_records_exactly_one_game_over() {
    let mut grid = empty_grid();
    for x in 0..10 {
        grid[0][x] = CellState::Filled(TetrominoType::T);
        grid[1][x] = CellState::Filled(TetrominoType::T);
    }
    let piece = Tetromino::new_at(TetrominoType::O, 0, 10);
    let mut game = Game::with_grid(grid, piece);
    game.take_events();

    game.spawn_next_piece();

    let events = game.take_events();
    let over_count = events.iter().filter(|e| **e == GameEvent::GameOver).count();
    assert_eq!(over_count, 1);
}

#[test]
fn playing_piece_stays_valid() {
    let provider = Provider::Sequence(SequencePieceProvider::new(vec![
        TetrominoType::J,
        TetrominoType::L,
        TetrominoType::S,
    ]));
    let mut game = Game::with_provider(provider);

    for _ in 0..8 {
        game.move_piece(-1, 0);
        game.rotate_piece(false);
        game.soft_drop();
        game.hard_drop();
        if game.is_game_over() {
            break;
        }
        assert!(game.is_valid_position(&game.current_piece));
    }
}

#[test]
fn game_over_updates_high_score() {
    let mut grid = empty_grid();
    for x in 0..10 {
        grid[0][x] = CellState::Filled(TetrominoType::T);
        grid[1][x] = CellState::Filled(TetrominoType::T);
    }
    let piece = Tetromino::new_at(TetrominoType::O, 0, 10);
    let mut game = Game::with_grid(grid, piece);
    game.score = 1200;
    game.high_score = 500;

    game.spawn_next_piece();

    assert!(game.is_game_over());
    assert_eq!(game.high_score, 1200);
}
