use tetris::board::empty_grid;
use tetris::events::GameEvent;
use tetris::game::Game;
use tetris::pieces::{Tetromino, TetrominoType};
use tetris::{LINES_PER_LEVEL, SCORE_DOUBLE, SCORE_SINGLE, SCORE_TETRIS, SCORE_TRIPLE};

#[test]
fn single_line_scores_correctly() {
    let piece = Tetromino::new(TetrominoType::O);
    let mut game = Game::with_grid(empty_grid(), piece);

    game.add_score(1);

    assert_eq!(game.score, SCORE_SINGLE);
    assert_eq!(game.lines_cleared, 1);
}

#[test]
fn double_line_scores_correctly() {
    let piece = Tetromino::new(TetrominoType::O);
    let mut game = Game::with_grid(empty_grid(), piece);

    game.add_score(2);

    assert_eq!(game.score, SCORE_DOUBLE);
}

#[test]
fn triple_line_scores_correctly() {
    let piece = Tetromino::new(TetrominoType::O);
    let mut game = Game::with_grid(empty_grid(), piece);

    game.add_score(3);

    assert_eq!(game.score, SCORE_TRIPLE);
}

#[test]
fn tetris_scores_correctly() {
    let piece = Tetromino::new(TetrominoType::O);
    let mut game = Game::with_grid(empty_grid(), piece);

    game.add_score(4);

    assert_eq!(game.score, SCORE_TETRIS);
}

#[test]
fn score_multiplied_by_level() {
    let piece = Tetromino::new(TetrominoType::O);
    let mut game = Game::with_grid(empty_grid(), piece);
    game.level = 3;

    game.add_score(1);

    assert_eq!(game.score, SCORE_SINGLE * 3);
}

#[test]
fn level_increases_after_lines_threshold() {
    let piece = Tetromino::new(TetrominoType::O);
    let mut game = Game::with_grid(empty_grid(), piece);

    assert_eq!(game.level, 1);

    // Clear enough lines to level up
    game.add_score(LINES_PER_LEVEL);

    assert_eq!(game.level, 2);
}

#[test]
fn level_up_emits_event() {
    let piece = Tetromino::new(TetrominoType::O);
    let mut game = Game::with_grid(empty_grid(), piece);
    game.take_events();

    game.add_score(LINES_PER_LEVEL);

    let events = game.take_events();
    assert!(events.contains(&GameEvent::LevelUp(2)));
}
