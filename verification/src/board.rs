//! The board: cells, well-formedness, validity of a piece position, locking,
//! and the mathematical account of line clearing with gravity compaction.

use vstd::prelude::*;

verus! {

use crate::pieces::{Tetromino, TetrominoType, block_position, lemma_offset_bounds, spawn_tetromino};
use crate::{GRID_HEIGHT, GRID_WIDTH};

/// One cell of the board: empty, or filled by a block of the given kind.
#[derive(Clone, Copy, PartialEq, Eq, Structural, Debug)]
pub enum CellState {
    Empty,
    Filled(TetrominoType),
}

/// A sequence of board rows as a mathematical value.
pub open spec fn rows_view(rows: Seq<Vec<CellState>>) -> Seq<Seq<CellState>> {
    rows.map_values(|row: Vec<CellState>| row@)
}

/// The board as a mathematical value: a sequence of rows of cells, row 0 on top.
pub open spec fn grid_view(g: Vec<Vec<CellState>>) -> Seq<Seq<CellState>> {
    rows_view(g@)
}

/// Taking the mathematical view commutes with removing a row.
pub proof fn lemma_rows_view_remove(rows: Seq<Vec<CellState>>, y: int)
    requires
        0 <= y < rows.len(),
    ensures
        rows_view(rows.remove(y)) == rows_view(rows).remove(y),
{
    assert(rows_view(rows.remove(y)) =~= rows_view(rows).remove(y));
}

/// Taking the mathematical view commutes with inserting a row.
pub proof fn lemma_rows_view_insert(rows: Seq<Vec<CellState>>, y: int, v: Vec<CellState>)
    requires
        0 <= y <= rows.len(),
    ensures
        rows_view(rows.insert(y, v)) == rows_view(rows).insert(y, v@),
{
    assert(rows_view(rows.insert(y, v)) =~= rows_view(rows).insert(y, v@));
}

/// A well-formed board: exactly `GRID_HEIGHT` rows of `GRID_WIDTH` cells each.
pub open spec fn wf_grid(g: Seq<Seq<CellState>>) -> bool {
    &&& g.len() == GRID_HEIGHT
    &&& forall|y: int| 0 <= y < g.len() ==> (#[trigger] g[y]).len() == GRID_WIDTH
}

/// A row is complete when every cell is filled.
pub open spec fn row_full(row: Seq<CellState>) -> bool {
    forall|x: int| 0 <= x < row.len() ==> row[x] != CellState::Empty
}

/// A row of `GRID_WIDTH` empty cells.
pub open spec fn empty_row() -> Seq<CellState> {
    Seq::new(GRID_WIDTH as nat, |x: int| CellState::Empty)
}

/// `n` empty rows.
pub open spec fn empty_rows(n: int) -> Seq<Seq<CellState>> {
    Seq::new(n as nat, |y: int| empty_row())
}

/// An all-empty board.
pub open spec fn empty_grid_spec() -> Seq<Seq<CellState>> {
    empty_rows(GRID_HEIGHT as int)
}

/// How many rows of `g` are complete.
pub open spec fn full_row_count(g: Seq<Seq<CellState>>) -> int
    decreases g.len(),
{
    if g.len() == 0 {
        0
    } else {
        (if row_full(g[0]) {
            1int
        } else {
            0int
        }) + full_row_count(g.drop_first())
    }
}

/// The rows of `g` that are not complete, in their original order.
pub open spec fn surviving_rows(g: Seq<Seq<CellState>>) -> Seq<Seq<CellState>>
    decreases g.len(),
{
    if g.len() == 0 {
        Seq::empty()
    } else if row_full(g[0]) {
        surviving_rows(g.drop_first())
    } else {
        seq![g[0]] + surviving_rows(g.drop_first())
    }
}

/// The end state of line clearing: one fresh empty row on top for every
/// complete row removed, and every incomplete row kept in order below them.
pub open spec fn collapse(g: Seq<Seq<CellState>>) -> Seq<Seq<CellState>> {
    empty_rows(full_row_count(g)) + surviving_rows(g)
}

/// Counts and survivors stay within range: there are between 0 and `len`
/// complete rows, and survivors plus cleared rows account for every row.
pub proof fn lemma_clear_sizes(g: Seq<Seq<CellState>>)
    ensures
        0 <= full_row_count(g) <= g.len(),
        surviving_rows(g).len() == g.len() - full_row_count(g),
        collapse(g).len() == g.len(),
    decreases g.len(),
{
    if g.len() > 0 {
        lemma_clear_sizes(g.drop_first());
    }
}

/// Both the complete-row count and the surviving rows distribute over
/// concatenation.
pub proof fn lemma_clear_split(a: Seq<Seq<CellState>>, b: Seq<Seq<CellState>>)
    ensures
        full_row_count(a + b) == full_row_count(a) + full_row_count(b),
        surviving_rows(a + b) == surviving_rows(a) + surviving_rows(b),
    decreases a.len(),
{
    if a.len() == 0 {
        assert(a + b =~= b);
        assert(surviving_rows(a) + surviving_rows(b) =~= surviving_rows(b));
    } else {
        assert((a + b).drop_first() =~= a.drop_first() + b);
        assert((a + b)[0] == a[0]);
        lemma_clear_split(a.drop_first(), b);
        if !row_full(a[0]) {
            assert(seq![a[0]] + (surviving_rows(a.drop_first()) + surviving_rows(b)) =~= (seq![
                a[0],
            ] + surviving_rows(a.drop_first())) + surviving_rows(b));
        }
    }
}

/// A board without any complete row collapses to itself.
pub proof fn lemma_no_full_rows(g: Seq<Seq<CellState>>)
    requires
        forall|y: int| 0 <= y < g.len() ==> !row_full(#[trigger] g[y]),
    ensures
        full_row_count(g) == 0,
        surviving_rows(g) == g,
        collapse(g) == g,
    decreases g.len(),
{
    if g.len() > 0 {
        assert(!row_full(g[0]));
        assert(forall|y: int|
            0 <= y < g.drop_first().len() ==> #[trigger] g.drop_first()[y] == g[y + 1]);
        lemma_no_full_rows(g.drop_first());
        assert(seq![g[0]] + g.drop_first() =~= g);
    }
    assert(empty_rows(0) + surviving_rows(g) =~= surviving_rows(g));
}

/// The fresh empty row is never complete (the board has at least one column).
pub proof fn lemma_empty_row_not_full()
    ensures
        !row_full(empty_row()),
        empty_row().len() == GRID_WIDTH,
{
    assert(empty_row()[0] == CellState::Empty);
}

/// The complete-row count and surviving rows of a one-row board.
proof fn lemma_clear_singleton(row: Seq<CellState>)
    ensures
        full_row_count(seq![row]) == if row_full(row) {
            1int
        } else {
            0int
        },
        surviving_rows(seq![row]) == if row_full(row) {
            Seq::<Seq<CellState>>::empty()
        } else {
            seq![row]
        },
{
    let rest = seq![row].drop_first();
    assert(rest =~= Seq::<Seq<CellState>>::empty());
    assert(full_row_count(Seq::<Seq<CellState>>::empty()) == 0);
    assert(surviving_rows(Seq::<Seq<CellState>>::empty()) =~= Seq::<Seq<CellState>>::empty());
    assert(seq![row][0] == row);
    if !row_full(row) {
        assert(seq![row] + Seq::<Seq<CellState>>::empty() =~= seq![row]);
    }
}

/// One step of the clearing scan: removing a complete row at `y` and pushing
/// a fresh empty row in at the top lowers the complete-row count by one and
/// leaves the collapsed end state unchanged.
pub proof fn lemma_clear_step(c: Seq<Seq<CellState>>, y: int)
    requires
        0 <= y < c.len(),
        row_full(c[y]),
    ensures
        full_row_count(c.remove(y).insert(0, empty_row())) == full_row_count(c) - 1,
        collapse(c.remove(y).insert(0, empty_row())) == collapse(c),
{
    let pre = c.subrange(0, y);
    let post = c.subrange(y + 1, c.len() as int);
    let mid: Seq<Seq<CellState>> = seq![c[y]];
    let e: Seq<Seq<CellState>> = seq![empty_row()];
    let c2 = c.remove(y).insert(0, empty_row());

    assert(c =~= pre + mid + post);
    assert(c2 =~= e + (pre + post));

    lemma_clear_split(pre + mid, post);
    lemma_clear_split(pre, mid);
    lemma_clear_split(e, pre + post);
    lemma_clear_split(pre, post);
    lemma_clear_singleton(c[y]);
    lemma_empty_row_not_full();
    lemma_clear_singleton(empty_row());

    lemma_clear_sizes(pre);
    lemma_clear_sizes(post);
    let n = full_row_count(c);
    assert(n >= 1);
    assert(full_row_count(c2) == n - 1);

    assert(surviving_rows(c2) =~= e + surviving_rows(pre) + surviving_rows(post));
    assert(surviving_rows(c) =~= surviving_rows(pre) + surviving_rows(post));
    lemma_clear_sizes(c);
    assert(empty_rows(n - 1) + e =~= empty_rows(n));
    assert(collapse(c2) =~= (empty_rows(n - 1) + e) + surviving_rows(pre) + surviving_rows(post));
    assert(collapse(c) =~= empty_rows(n) + surviving_rows(pre) + surviving_rows(post));
}

/// Where a surviving row lands: clearing moves the incomplete row at `i` down
/// by exactly the number of complete rows below it, and keeps the rows' order
/// (rows move wholesale, so horizontal order inside a row is untouched).
pub proof fn lemma_collapse_row_falls(g: Seq<Seq<CellState>>, i: int)
    requires
        0 <= i < g.len(),
        !row_full(g[i]),
    ensures
        0 <= i + full_row_count(g.subrange(i + 1, g.len() as int)) < collapse(g).len(),
        collapse(g)[i + full_row_count(g.subrange(i + 1, g.len() as int))] == g[i],
{
    let pre = g.subrange(0, i);
    let mid: Seq<Seq<CellState>> = seq![g[i]];
    let post = g.subrange(i + 1, g.len() as int);
    assert(g =~= pre + mid + post);
    lemma_clear_split(pre + mid, post);
    lemma_clear_split(pre, mid);
    lemma_clear_singleton(g[i]);
    lemma_clear_sizes(pre);
    lemma_clear_sizes(post);
    lemma_clear_sizes(g);
    assert(surviving_rows(g) =~= surviving_rows(pre) + (seq![g[i]] + surviving_rows(post)));
    let n = full_row_count(g);
    let k = surviving_rows(pre).len() as int;
    assert(surviving_rows(g)[k] == g[i]);
    assert(collapse(g)[n + k] == g[i]);
    assert(n + k == i + full_row_count(post));
}

/// The cleared rows reappear as empty rows at the top of the board.
pub proof fn lemma_collapse_top_rows(g: Seq<Seq<CellState>>, j: int)
    requires
        0 <= j < full_row_count(g),
    ensures
        collapse(g)[j] == empty_row(),
{
    lemma_clear_sizes(g);
}

/// Every block of the piece is inside the board and over an empty cell.
pub open spec fn block_ok(g: Seq<Seq<CellState>>, b: (int, int)) -> bool {
    &&& 0 <= b.0 < GRID_WIDTH as int
    &&& 0 <= b.1 < GRID_HEIGHT as int
    &&& g[b.1][b.0] == CellState::Empty
}

/// The validity predicate: all four blocks in bounds and non-colliding.
pub open spec fn valid_position(g: Seq<Seq<CellState>>, p: Tetromino) -> bool {
    forall|k: int| 0 <= k < 4 ==> block_ok(g, #[trigger] block_position(p, k))
}

/// Does one of the first `j` blocks of `p` cover the cell `(x, y)`?
pub open spec fn covers_upto(p: Tetromino, j: int, x: int, y: int) -> bool {
    exists|k: int| 0 <= k < j && #[trigger] block_position(p, k) == (x, y)
}

/// Does some block of `p` cover the cell `(x, y)`?
pub open spec fn piece_covers(p: Tetromino, x: int, y: int) -> bool {
    covers_upto(p, 4, x, y)
}

/// The board with the four blocks of `p` written as filled cells of its kind.
pub open spec fn place_piece(g: Seq<Seq<CellState>>, p: Tetromino) -> Seq<Seq<CellState>> {
    Seq::new(
        g.len(),
        |y: int|
            Seq::new(
                g[y].len(),
                |x: int|
                    if piece_covers(p, x, y) {
                        CellState::Filled(p.tetromino_type)
                    } else {
                        g[y][x]
                    },
            ),
    )
}

/// A valid piece has its anchor within a small margin of the board, because
/// each block is the anchor plus an offset in `[0, 3]`.
pub proof fn lemma_valid_anchor_bounds(g: Seq<Seq<CellState>>, p: Tetromino)
    requires
        valid_position(g, p),
    ensures
        0 - 3 <= p.position.x < GRID_WIDTH as int,
        0 - 3 <= p.position.y < GRID_HEIGHT as int,
{
    assert(block_ok(g, block_position(p, 0)));
    lemma_offset_bounds(p.tetromino_type, p.rotation as int % 4, 0);
}

/// A freshly spawned piece is valid on an all-empty board.
pub proof fn lemma_spawn_valid_on_empty(t: TetrominoType)
    ensures
        valid_position(empty_grid_spec(), spawn_tetromino(t)),
{
    let p = spawn_tetromino(t);
    assert forall|k: int| 0 <= k < 4 implies block_ok(
        empty_grid_spec(),
        #[trigger] block_position(p, k),
    ) by {
        lemma_offset_bounds(t, 0, k);
        let b = block_position(p, k);
        assert(empty_grid_spec()[b.1][b.0] == CellState::Empty);
    }
}

/// Number of filled cells among the first `n` cells of a row.
pub open spec fn row_filled_count(row: Seq<CellState>, n: int) -> int
    decreases n,
{
    if n <= 0 {
        0
    } else {
        row_filled_count(row, n - 1) + (if row[n - 1] != CellState::Empty {
            1int
        } else {
            0int
        })
    }
}

/// A row's filled-cell count lies between 0 and `n`.
pub proof fn lemma_row_filled_count_bounds(row: Seq<CellState>, n: int)
    requires
        n >= 0,
    ensures
        0 <= row_filled_count(row, n) <= n,
    decreases n,
{
    if n > 0 {
        lemma_row_filled_count_bounds(row, n - 1);
    }
}

/// Number of filled cells in the first `n` rows of a board.
pub open spec fn grid_filled_count(g: Seq<Seq<CellState>>, n: int) -> int
    decreases n,
{
    if n <= 0 {
        0
    } else {
        grid_filled_count(g, n - 1) + row_filled_count(g[n - 1], g[n - 1].len() as int)
    }
}

pub(crate) fn make_empty_row() -> (r: Vec<CellState>)
    ensures
        r@ == empty_row(),
{
    let mut r: Vec<CellState> = Vec::new();
    let mut x: usize = 0;
    while x < GRID_WIDTH
        invariant
            x <= GRID_WIDTH,
            r@.len() == x,
            forall|i: int| 0 <= i < x ==> r@[i] == CellState::Empty,
        decreases GRID_WIDTH - x,
    {
        r.push(CellState::Empty);
        x += 1;
    }
    proof {
        assert(r@ =~= empty_row());
    }
    r
}

/// An all-empty board of the standard dimensions.
pub fn empty_grid() -> (g: Vec<Vec<CellState>>)
    ensures
        grid_view(g) == empty_grid_spec(),
        wf_grid(grid_view(g)),
{
    let mut g: Vec<Vec<CellState>> = Vec::new();
    let mut y: usize = 0;
    while y < GRID_HEIGHT
        invariant
            y <= GRID_HEIGHT,
            g@.len() == y,
            forall|i: int| 0 <= i < y ==> (#[trigger] g@[i])@ == empty_row(),
        decreases GRID_HEIGHT - y,
    {
        g.push(make_empty_row());
        y += 1;
    }
    proof {
        assert(grid_view(g) =~= empty_grid_spec());
    }
    g
}

/// Fill every cell of row `y` with a block.
pub fn fill_row(grid: &mut Vec<Vec<CellState>>, y: usize)
    requires
        wf_grid(grid_view(*old(grid))),
        y < GRID_HEIGHT,
    ensures
        grid_view(*final(grid)) == grid_view(*old(grid)).update(
            y as int,
            Seq::new(GRID_WIDTH as nat, |x: int| CellState::Filled(TetrominoType::T)),
        ),
        wf_grid(grid_view(*final(grid))),
{
    proof {
        assert(grid_view(*grid)[y as int] == grid@[y as int]@);
    }
    let mut x: usize = 0;
    while x < GRID_WIDTH
        invariant
            wf_grid(grid_view(*old(grid))),
            y < GRID_HEIGHT,
            x <= GRID_WIDTH,
            grid@.len() == GRID_HEIGHT,
            forall|r: int| 0 <= r < GRID_HEIGHT && r != y ==> grid@[r] == old(grid)@[r],
            (#[trigger] grid@[y as int])@.len() == GRID_WIDTH,
            forall|i: int|
                0 <= i < x ==> grid@[y as int]@[i] == CellState::Filled(TetrominoType::T),
            forall|i: int| x <= i < GRID_WIDTH ==> grid@[y as int]@[i] == old(grid)@[y as int]@[i],
        decreases GRID_WIDTH - x,
    {
        grid[y][x] = CellState::Filled(TetrominoType::T);
        x += 1;
    }
    proof {
        assert(forall|r: int|
            0 <= r < GRID_HEIGHT ==> #[trigger] grid_view(*grid)[r] == grid@[r]@);
        assert(forall|r: int|
            0 <= r < GRID_HEIGHT ==> #[trigger] grid_view(*old(grid))[r] == old(grid)@[r]@);
        assert(grid_view(*grid) =~~= grid_view(*old(grid)).update(
            y as int,
            Seq::new(GRID_WIDTH as nat, |x: int| CellState::Filled(TetrominoType::T)),
        ));
    }
}

/// Fill row `y` with blocks in every column except `gap_x`.
pub fn fill_row_with_gap(grid: &mut Vec<Vec<CellState>>, y: usize, gap_x: usize)
    requires
        wf_grid(grid_view(*old(grid))),
        y < GRID_HEIGHT,
    ensures
        grid_view(*final(grid)) == grid_view(*old(grid)).update(
            y as int,
            Seq::new(
                GRID_WIDTH as nat,
                |x: int|
                    if x == gap_x {
                        grid_view(*old(grid))[y as int][x]
                    } else {
                        CellState::Filled(TetrominoType::T)
                    },
            ),
        ),
        wf_grid(grid_view(*final(grid))),
{
    proof {
        assert(grid_view(*grid)[y as int] == grid@[y as int]@);
    }
    let mut x: usize = 0;
    while x < GRID_WIDTH
        invariant
            wf_grid(grid_view(*old(grid))),
            y < GRID_HEIGHT,
            x <= GRID_WIDTH,
            grid@.len() == GRID_HEIGHT,
            forall|r: int| 0 <= r < GRID_HEIGHT && r != y ==> grid@[r] == old(grid)@[r],
            (#[trigger] grid@[y as int])@.len() == GRID_WIDTH,
            forall|i: int|
                0 <= i < x && i != gap_x ==> grid@[y as int]@[i] == CellState::Filled(
                    TetrominoType::T,
                ),
            forall|i: int|
                (x <= i < GRID_WIDTH || i == gap_x) && 0 <= i < GRID_WIDTH ==> grid@[y as int]@[i]
                    == old(grid)@[y as int]@[i],
        decreases GRID_WIDTH - x,
    {
        if x != gap_x {
            grid[y][x] = CellState::Filled(TetrominoType::T);
        }
        x += 1;
    }
    proof {
        assert(forall|r: int|
            0 <= r < GRID_HEIGHT ==> #[trigger] grid_view(*grid)[r] == grid@[r]@);
        assert(forall|r: int|
            0 <= r < GRID_HEIGHT ==> #[trigger] grid_view(*old(grid))[r] == old(grid)@[r]@);
        assert(grid_view(*grid) =~~= grid_view(*old(grid)).update(
            y as int,
            Seq::new(
                GRID_WIDTH as nat,
                |x: int|
                    if x == gap_x {
                        grid_view(*old(grid))[y as int][x]
                    } else {
                        CellState::Filled(TetrominoType::T)
                    },
            ),
        ));
    }
}

} // verus!
