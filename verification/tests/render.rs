use tetris::board::{empty_grid, fill_row, CellState};
use tetris::game::Game;
use tetris::pieces::{Tetromino, TetrominoType};
use tetris::GRID_HEIGHT;

#[test]
fn render_grid_includes_current_piece() {
    let piece = Tetromino::new_at(TetrominoType::O, 4, 5);
    let game = Game::with_grid(empty_grid(), piece);

    let visual = game.render_grid();

    // O piece at (4,5) occupies (4,5), (5,5), (4,6), (5,6)
    assert_eq!(visual[5][4], CellState::Filled(TetrominoType::O));
    assert_eq!(visual[5][5], CellState::Filled(TetrominoType::O));
    assert_eq!(visual[6][4], CellState::Filled(TetrominoType::O));
    assert_eq!(visual[6][5], CellState::Filled(TetrominoType::O));
}

#[test]
fn render_grid_includes_locked_pieces() {
    let mut grid = empty_grid();
    grid[GRID_HEIGHT - 1][0] = CellState::Filled(TetrominoType::T);

    let piece = Tetromino::new_at(TetrominoType::O, 4, 0);
    let game = Game::with_grid(grid, piece);

    let visual = game.render_grid();

    assert_eq!(visual[GRID_HEIGHT - 1][0], CellState::Filled(TetrominoType::T));
}

#[test]
fn render_grid_matches_after_line_clear() {
    let mut grid = empty_grid();
    fill_row(&mut grid, GRID_HEIGHT - 1);
    // Add a marker block above
    grid[GRID_HEIGHT - 2][0] = CellState::Filled(TetrominoType::J);

    let piece = Tetromino::new_at(TetrominoType::O, 4, 0);
    let mut game = Game::with_grid(grid, piece);

    game.clear_lines();
    let visual = game.render_grid();

    // After clearing, the J block should have fallen to bottom row
    assert_eq!(visual[GRID_HEIGHT - 1][0], CellState::Filled(TetrominoType::J));
    // And the cleared row cells should be empty (except current piece if overlapping)
    // Check a cell not covered by current piece
    assert_eq!(visual[GRID_HEIGHT - 1][9], CellState::Empty);
}

#[test]
fn render_grid_current_piece_overlays_correctly() {
    // Edge case: what if current piece position overlaps with grid cell visually?
    // render_grid should show the current piece
    let mut grid = empty_grid();
    grid[5][4] = CellState::Filled(TetrominoType::T); // Place a T block

    let piece = Tetromino::new_at(TetrominoType::O, 4, 5); // O piece overlaps at (4,5)
    let game = Game::with_grid(grid, piece);

    let visual = game.render_grid();

    // Current piece should be shown (O), not the underlying T
    assert_eq!(visual[5][4], CellState::Filled(TetrominoType::O));
}
