//! The engine aggregate: board, falling piece, preview queue, scoring,
//! lifecycle, piece supply and the event log, with the operations the
//! driving loop calls.

use vstd::prelude::*;

verus! {

use std::collections::VecDeque;

use crate::board::{
    block_ok, collapse, covers_upto, empty_grid, empty_grid_spec, empty_row, full_row_count,
    grid_filled_count, grid_view, lemma_clear_sizes, lemma_clear_step, lemma_empty_row_not_full,
    lemma_no_full_rows, lemma_rows_view_insert, lemma_rows_view_remove, lemma_spawn_valid_on_empty,
    lemma_valid_anchor_bounds, make_empty_row, place_piece, row_filled_count, row_full,
    valid_position, wf_grid, CellState,
};
use crate::events::{GameEvent, GameState};
use crate::pieces::{
    block_position, moved_spec, piece_offsets, rotated_spec, spawn_tetromino, Position, Tetromino,
    TetrominoType,
};
use crate::provider::{Provider, SequencePieceProvider};
use crate::{
    BASE_TICK_MS, GRID_HEIGHT, GRID_WIDTH, LINES_PER_LEVEL, MIN_TICK_MS, PREVIEW_COUNT,
    SCORE_DOUBLE, SCORE_SINGLE, SCORE_TETRIS, SCORE_TRIPLE, SPEED_INCREASE_PER_LEVEL,
};

/// The engine aggregate.  The fields are plain values so that contracts can
/// speak of them directly; the stored high score starts at zero and is the
/// embedding program's to seed from wherever it keeps it.
pub struct Game {
    pub grid: Vec<Vec<CellState>>,
    pub current_piece: Tetromino,
    pub preview_queue: VecDeque<TetrominoType>,
    pub score: u32,
    pub lines_cleared: u32,
    pub level: u32,
    pub high_score: u32,
    pub state: GameState,
    pub piece_provider: Provider,
    pub events: Vec<GameEvent>,
}

/// The difficulty level implied by a total of cleared lines.
pub open spec fn level_for(lines: u32) -> int {
    lines as int / LINES_PER_LEVEL as int + 1
}

/// The gravity interval at a level, in milliseconds: the base interval minus
/// a fixed speed-up per level above one, never below the floor.
pub open spec fn tick_interval(level: u32) -> int {
    let reduced = BASE_TICK_MS as int - (level - 1) * SPEED_INCREASE_PER_LEVEL as int;
    if reduced > MIN_TICK_MS as int {
        reduced
    } else {
        MIN_TICK_MS as int
    }
}

/// Everything but the falling piece and the event log is unchanged.
pub open spec fn same_core(pre: Game, post: Game) -> bool {
    &&& post.grid == pre.grid
    &&& post.preview_queue == pre.preview_queue
    &&& post.score == pre.score
    &&& post.lines_cleared == pre.lines_cleared
    &&& post.level == pre.level
    &&& post.high_score == pre.high_score
    &&& post.state == pre.state
    &&& post.piece_provider == pre.piece_provider
}

/// Filling the preview queue and then drawing the first piece consumes five
/// kinds from a sequence supply: the entries at the cursor onward, cyclically.
pub open spec fn drawn_from_sequence(
    s: SequencePieceProvider,
    post: Provider,
    queue: Seq<TetrominoType>,
    current: TetrominoType,
) -> bool {
    let n = s.pieces@.len() as int;
    &&& n > 0
    &&& queue.len() == PREVIEW_COUNT
    &&& (forall|i: int|
        0 <= i < PREVIEW_COUNT ==> queue[i] == s.pieces@[((s.index + i) % n) as int])
    &&& current == s.pieces@[((s.index + PREVIEW_COUNT) % n) as int]
    &&& (post matches Provider::Sequence(s2) && s2.pieces == s.pieces && s2.index as int == (
    s.index + PREVIEW_COUNT + 1) % n)
}

/// The fixed wall-kick offsets, tried in exactly this order.
pub open spec fn kick_offsets() -> Seq<(i16, i16)> {
    seq![(1i16, 0i16), (-1i16, 0i16), (0i16, -1i16), (2i16, 0i16), (-2i16, 0i16)]
}

/// The rotated candidate nudged by kick number `k`.
pub open spec fn kicked_spec(rot: Tetromino, k: int) -> Tetromino {
    Tetromino {
        position: Position {
            x: (rot.position.x + kick_offsets()[k].0) as i16,
            y: (rot.position.y + kick_offsets()[k].1) as i16,
        },
        ..rot
    }
}

/// The first kick index in `[k, 5)` that makes the rotated candidate valid,
/// or 5 when none does.
pub open spec fn first_kick_from(g: Seq<Seq<CellState>>, rot: Tetromino, k: int) -> int
    decreases 5 - k,
{
    if k >= 5 {
        5
    } else if valid_position(g, kicked_spec(rot, k)) {
        k
    } else {
        first_kick_from(g, rot, k + 1)
    }
}

/// The first of the five kicks that makes the rotated candidate valid, or 5
/// when none does.
pub open spec fn first_kick(g: Seq<Seq<CellState>>, rot: Tetromino) -> int {
    first_kick_from(g, rot, 0)
}

fn kick_offset(k: usize) -> (r: (i16, i16))
    requires
        k < 5,
    ensures
        r == kick_offsets()[k as int],
{
    if k == 0 {
        (1, 0)
    } else if k == 1 {
        (-1, 0)
    } else if k == 2 {
        (0, -1)
    } else if k == 3 {
        (2, 0)
    } else {
        (-2, 0)
    }
}

/// The base score for clearing `lines` lines at once.
pub open spec fn base_score_of(lines: int) -> int {
    if lines == 1 {
        SCORE_SINGLE as int
    } else if lines == 2 {
        SCORE_DOUBLE as int
    } else if lines == 3 {
        SCORE_TRIPLE as int
    } else if lines == 4 {
        SCORE_TETRIS as int
    } else {
        0
    }
}

/// Where a piece comes to rest: the position reached by repeated one-cell
/// drops while each next step down is still valid.  The recursion is fueled;
/// the fuel covers the deepest possible fall of any piece on the board.
pub open spec fn landing_from(g: Seq<Seq<CellState>>, p: Tetromino, fuel: nat) -> Tetromino
    decreases fuel,
{
    if fuel == 0 {
        p
    } else if valid_position(g, moved_spec(p, 0, 1)) {
        landing_from(g, moved_spec(p, 0, 1), (fuel - 1) as nat)
    } else {
        p
    }
}

/// Where the piece comes to rest when dropped straight down.
pub open spec fn landing(g: Seq<Seq<CellState>>, p: Tetromino) -> Tetromino {
    landing_from(g, p, (GRID_HEIGHT + 8) as nat)
}

/// With enough fuel for the piece's possible fall, the fuel does not matter.
proof fn lemma_landing_from_fuel(g: Seq<Seq<CellState>>, p: Tetromino, f1: nat, f2: nat)
    requires
        0 - 3 <= p.position.y <= GRID_HEIGHT as int - 1,
        f1 >= GRID_HEIGHT + 3 - p.position.y,
        f2 >= GRID_HEIGHT + 3 - p.position.y,
    ensures
        landing_from(g, p, f1) == landing_from(g, p, f2),
    decreases f1,
{
    if valid_position(g, moved_spec(p, 0, 1)) {
        lemma_valid_anchor_bounds(g, moved_spec(p, 0, 1));
        lemma_landing_from_fuel(g, moved_spec(p, 0, 1), (f1 - 1) as nat, (f2 - 1) as nat);
    }
}

/// One successful step down keeps the landing position.
proof fn lemma_landing_unfold(g: Seq<Seq<CellState>>, p: Tetromino)
    requires
        valid_position(g, moved_spec(p, 0, 1)),
        0 - 3 <= p.position.y <= GRID_HEIGHT as int - 1,
    ensures
        landing(g, p) == landing(g, moved_spec(p, 0, 1)),
{
    lemma_valid_anchor_bounds(g, moved_spec(p, 0, 1));
    lemma_landing_from_fuel(
        g,
        moved_spec(p, 0, 1),
        (GRID_HEIGHT + 7) as nat,
        (GRID_HEIGHT + 8) as nat,
    );
}

/// What one lock-and-spawn pass does to the engine, given the piece that
/// locks and the event log it starts from: the piece's blocks are committed,
/// complete rows are cleared with compaction and scored, and the next piece
/// is spawned from the preview queue, ending the game if it does not fit.
pub open spec fn lock_spawn_rel(
    pre: Game,
    piece: Tetromino,
    evts: Seq<GameEvent>,
    post: Game,
) -> bool {
    let locked = place_piece(grid_view(pre.grid), piece);
    let c = full_row_count(locked);
    let spawn_ok = valid_position(collapse(locked), post.current_piece);
    let levelup = c > 0 && level_for(post.lines_cleared) > pre.level;
    let evts1 = evts.push(GameEvent::PieceLocked);
    let evts2 = if c > 0 {
        evts1.push(GameEvent::LinesCleared(c as u32))
    } else {
        evts1
    };
    let evts3 = if levelup {
        evts2.push(GameEvent::LevelUp(post.level))
    } else {
        evts2
    };
    &&& grid_view(post.grid) == collapse(locked)
    &&& post.lines_cleared == pre.lines_cleared + c
    &&& post.score == pre.score + base_score_of(c) * pre.level
    &&& post.level as int == (if level_for(post.lines_cleared) > pre.level {
        level_for(post.lines_cleared)
    } else {
        pre.level as int
    })
    &&& post.current_piece == spawn_tetromino(pre.preview_queue@[0])
    &&& post.preview_queue@.len() == PREVIEW_COUNT
    &&& post.preview_queue@.subrange(0, PREVIEW_COUNT as int - 1) == pre.preview_queue@.subrange(
        1,
        PREVIEW_COUNT as int,
    )
    &&& Provider::next_ok(
        pre.piece_provider,
        post.piece_provider,
        post.preview_queue@[PREVIEW_COUNT as int - 1],
    )
    &&& (spawn_ok ==> post.state == pre.state && post.events@ == evts3 && post.high_score
        == pre.high_score)
    &&& (!spawn_ok ==> post.state == GameState::GameOver && post.events@ == evts3.push(
        GameEvent::GameOver,
    ) && post.high_score as int == (if post.score > pre.high_score {
        post.score as int
    } else {
        pre.high_score as int
    }))
}

/// As long as the game has not ended — in particular whenever it is being
/// played — the falling piece of a well-formed engine is valid: every block
/// in bounds and over an empty cell.
pub proof fn lemma_playing_piece_valid(g: Game)
    requires
        g.wf(),
        g.state == GameState::Playing,
    ensures
        valid_position(g.gview(), g.current_piece),
{
}

/// What draining the event log does: everything accumulated comes out and
/// the log is left empty.
pub open spec fn drained(pre: Seq<GameEvent>, taken: Seq<GameEvent>, post: Seq<GameEvent>) -> bool {
    taken == pre && post == Seq::<GameEvent>::empty()
}

/// Draining twice in a row yields nothing the second time: the first drain
/// leaves the log empty, so the second one can only return an empty sequence.
pub proof fn lemma_drain_twice(
    e0: Seq<GameEvent>,
    r1: Seq<GameEvent>,
    e1: Seq<GameEvent>,
    r2: Seq<GameEvent>,
    e2: Seq<GameEvent>,
)
    requires
        drained(e0, r1, e1),
        drained(e1, r2, e2),
    ensures
        r2 == Seq::<GameEvent>::empty(),
{
}

/// Taking a remainder commutes with adding one.
proof fn lemma_mod_succ(a: int, n: int)
    requires
        n > 0,
        a >= 0,
    ensures
        (a % n + 1) % n == (a + 1) % n,
{
    vstd::arithmetic::div_mod::lemma_add_mod_noop(a, 1, n);
    if n == 1 {
        assert((a % n + 1) % n == (a + 1) % n) by (nonlinear_arith)
            requires
                n == 1,
                a >= 0,
        ;
    } else {
        vstd::arithmetic::div_mod::lemma_small_mod(1nat, n as nat);
    }
}

impl Game {
    /// The board as a mathematical value.
    pub open spec fn gview(self) -> Seq<Seq<CellState>> {
        grid_view(self.grid)
    }

    /// The engine invariant: a well-formed board, a full preview queue, a
    /// usable piece supply, the level implied by the cleared-line total, and
    /// a falling piece that is valid as long as the game is not over (while
    /// paused the piece does not move, so its validity persists).
    pub open spec fn wf(self) -> bool {
        &&& wf_grid(self.gview())
        &&& self.preview_queue@.len() == PREVIEW_COUNT
        &&& self.piece_provider.wf()
        &&& self.level == level_for(self.lines_cleared)
        &&& (self.state != GameState::GameOver ==> valid_position(
            self.gview(),
            self.current_piece,
        ))
    }

    /// A fresh game whose preview queue and first falling piece come from
    /// `provider`, over an empty board.
    pub fn with_provider(provider: Provider) -> (g: Game)
        requires
            provider.wf(),
        ensures
            g.wf(),
            grid_view(g.grid) == empty_grid_spec(),
            g.score == 0,
            g.lines_cleared == 0,
            g.level == 1,
            g.high_score == 0,
            g.state == GameState::Playing,
            g.events@ == Seq::<GameEvent>::empty(),
            g.preview_queue@.len() == PREVIEW_COUNT,
            g.current_piece == spawn_tetromino(g.current_piece.tetromino_type),
            provider == Provider::Random ==> g.piece_provider == Provider::Random,
            (provider matches Provider::Sequence(s) ==> drawn_from_sequence(
                s,
                g.piece_provider,
                g.preview_queue@,
                g.current_piece.tetromino_type,
            )),
    {
        let mut provider = provider;
        let ghost p0 = provider;
        let grid = empty_grid();
        let mut preview_queue: VecDeque<TetrominoType> = VecDeque::new();
        proof {
            if p0 is Sequence {
                let s = p0->Sequence_0;
                vstd::arithmetic::div_mod::lemma_small_mod(
                    s.index as nat,
                    s.pieces@.len() as nat,
                );
            }
        }
        let mut i: usize = 0;
        while i < PREVIEW_COUNT
            invariant
                i <= PREVIEW_COUNT,
                provider.wf(),
                preview_queue@.len() == i,
                p0 == Provider::Random ==> provider == Provider::Random,
                (p0 matches Provider::Sequence(s) ==> provider matches Provider::Sequence(sc)
                    && sc.pieces == s.pieces && sc.index as int == (s.index + i) % (
                s.pieces@.len() as int) && (forall|j: int|
                    0 <= j < i ==> preview_queue@[j] == s.pieces@[(s.index + j) % (
                    s.pieces@.len() as int)])),
            decreases PREVIEW_COUNT - i,
        {
            let t = provider.next_piece();
            proof {
                if p0 is Sequence {
                    let s = p0->Sequence_0;
                    lemma_mod_succ(s.index + i, s.pieces@.len() as int);
                }
            }
            preview_queue.push_back(t);
            i += 1;
        }
        let current_type = provider.next_piece();
        proof {
            if p0 is Sequence {
                let s = p0->Sequence_0;
                lemma_mod_succ(s.index + PREVIEW_COUNT, s.pieces@.len() as int);
            }
        }
        let current_piece = Tetromino::new(current_type);
        proof {
            lemma_spawn_valid_on_empty(current_type);
        }
        Game {
            grid,
            current_piece,
            preview_queue,
            score: 0,
            lines_cleared: 0,
            level: 1,
            high_score: 0,
            state: GameState::Playing,
            piece_provider: provider,
            events: Vec::new(),
        }
    }

    /// A fresh game with the built-in random piece supply.
    pub fn new() -> (g: Game)
        ensures
            g.wf(),
            grid_view(g.grid) == empty_grid_spec(),
            g.score == 0,
            g.lines_cleared == 0,
            g.level == 1,
            g.high_score == 0,
            g.state == GameState::Playing,
            g.events@ == Seq::<GameEvent>::empty(),
            g.preview_queue@.len() == PREVIEW_COUNT,
            g.current_piece == spawn_tetromino(g.current_piece.tetromino_type),
            g.piece_provider == Provider::Random,
    {
        Self::with_provider(Provider::Random)
    }

    /// A game over a caller-supplied board and falling piece, with the random
    /// supply and zero score, in the playing state.
    pub fn with_grid(grid: Vec<Vec<CellState>>, current_piece: Tetromino) -> (g: Game)
        requires
            wf_grid(grid_view(grid)),
            valid_position(grid_view(grid), current_piece),
        ensures
            g.wf(),
            g.grid == grid,
            g.current_piece == current_piece,
            g.preview_queue@.len() == PREVIEW_COUNT,
            g.score == 0,
            g.lines_cleared == 0,
            g.level == 1,
            g.high_score == 0,
            g.state == GameState::Playing,
            g.piece_provider == Provider::Random,
            g.events@ == Seq::<GameEvent>::empty(),
    {
        let mut preview_queue: VecDeque<TetrominoType> = VecDeque::new();
        let mut i: usize = 0;
        while i < PREVIEW_COUNT
            invariant
                i <= PREVIEW_COUNT,
                preview_queue@.len() == i,
            decreases PREVIEW_COUNT - i,
        {
            preview_queue.push_back(TetrominoType::random());
            i += 1;
        }
        Game {
            grid,
            current_piece,
            preview_queue,
            score: 0,
            lines_cleared: 0,
            level: 1,
            high_score: 0,
            state: GameState::Playing,
            piece_provider: Provider::Random,
            events: Vec::new(),
        }
    }

    /// The validity predicate: every block of `piece` is inside the board
    /// and over an empty cell.  Read-only.
    pub fn is_valid_position(&self, piece: &Tetromino) -> (r: bool)
        requires
            wf_grid(grid_view(self.grid)),
        ensures
            r == valid_position(grid_view(self.grid), *piece),
    {
        let shapes = piece.tetromino_type.shapes();
        let shape = &shapes[piece.rotation % shapes.len()];
        let mut k: usize = 0;
        while k < 4
            invariant
                wf_grid(grid_view(self.grid)),
                shape@ == piece_offsets(*piece),
                shape@.len() == 4,
                k <= 4,
                forall|j: int|
                    0 <= j < k ==> block_ok(
                        grid_view(self.grid),
                        #[trigger] block_position(*piece, j),
                    ),
            decreases 4 - k,
        {
            let (dx, dy) = shape[k];
            let bx = piece.position.x as i32 + dx as i32;
            let by = piece.position.y as i32 + dy as i32;
            let ghost bpos = block_position(*piece, k as int);
            proof {
                assert(bpos == (bx as int, by as int));
            }
            if bx < 0 || bx >= GRID_WIDTH as i32 {
                proof {
                    assert(!block_ok(grid_view(self.grid), bpos));
                }
                return false;
            }
            if by < 0 || by >= GRID_HEIGHT as i32 {
                proof {
                    assert(!block_ok(grid_view(self.grid), bpos));
                }
                return false;
            }
            proof {
                assert(grid_view(self.grid)[by as int] == self.grid@[by as int]@);
            }
            if self.grid[by as usize][bx as usize] != CellState::Empty {
                proof {
                    assert(!block_ok(grid_view(self.grid), bpos));
                }
                return false;
            }
            k += 1;
        }
        true
    }

    /// Try to translate the falling piece by `(dx, dy)`.  This succeeds
    /// exactly when the game is being played and the translated piece is in
    /// bounds and free of collisions; on failure nothing at all changes.
    pub fn move_piece(&mut self, dx: i16, dy: i16) -> (ok: bool)
        requires
            old(self).wf(),
            old(self).state == GameState::Playing ==> i16::MIN <= old(self).current_piece.position.x + dx <= i16::MAX && i16::MIN <= old(self).current_piece.position.y + dy <= i16::MAX,
        ensures
            final(self).wf(),
            ok == (old(self).state == GameState::Playing && valid_position(
                old(self).gview(),
                moved_spec(old(self).current_piece, dx, dy),
            )),
            ok ==> final(self).current_piece == moved_spec(old(self).current_piece, dx, dy)
                && final(self).events@ == old(self).events@.push(GameEvent::PieceMoved)
                && same_core(*old(self), *final(self)),
            !ok ==> *final(self) == *old(self),
    {
        if self.state != GameState::Playing {
            return false;
        }
        let moved = self.current_piece.moved(dx, dy);
        if self.is_valid_position(&moved) {
            self.current_piece = moved;
            self.events.push(GameEvent::PieceMoved);
            true
        } else {
            false
        }
    }

    /// Try to rotate the falling piece.  The naive rotation is tried first;
    /// if it is invalid, the five wall kicks are tried in their fixed order
    /// and the first valid nudge is committed.  If none fits, the rotation
    /// fails with no mutation and no event.
    pub fn rotate_piece(&mut self, clockwise: bool) -> (ok: bool)
        requires
            old(self).wf(),
        ensures
            final(self).wf(),
            ({
                let g = old(self).gview();
                let rot = rotated_spec(old(self).current_piece, clockwise);
                &&& ok == (old(self).state == GameState::Playing && (valid_position(g, rot)
                    || first_kick(g, rot) < 5))
                &&& (!ok ==> *final(self) == *old(self))
                &&& (ok ==> same_core(*old(self), *final(self)) && final(self).events@ == old(self).events@.push(GameEvent::PieceRotated) && final(self).current_piece == (
                if valid_position(g, rot) {
                    rot
                } else {
                    kicked_spec(rot, first_kick(g, rot))
                }))
            }),
    {
        if self.state != GameState::Playing {
            return false;
        }
        let rotated = self.current_piece.rotated(clockwise);
        if self.is_valid_position(&rotated) {
            self.current_piece = rotated;
            self.events.push(GameEvent::PieceRotated);
            return true;
        }
        proof {
            lemma_valid_anchor_bounds(self.gview(), self.current_piece);
        }
        let ghost g = self.gview();
        let mut k: usize = 0;
        while k < 5
            invariant
                *self == *old(self),
                self.wf(),
                self.state == GameState::Playing,
                g == self.gview(),
                rotated == rotated_spec(old(self).current_piece, clockwise),
                !valid_position(g, rotated),
                0 - 3 <= rotated.position.x <= 9,
                0 - 3 <= rotated.position.y <= 19,
                k <= 5,
                first_kick(g, rotated) == first_kick_from(g, rotated, k as int),
            decreases 5 - k,
        {
            let (dx, dy) = kick_offset(k);
            let kicked = Tetromino {
                tetromino_type: rotated.tetromino_type,
                position: Position { x: rotated.position.x + dx, y: rotated.position.y + dy },
                rotation: rotated.rotation,
            };
            proof {
                assert(kicked == kicked_spec(rotated, k as int));
            }
            if self.is_valid_position(&kicked) {
                proof {
                    assert(first_kick_from(g, rotated, k as int) == k);
                }
                self.current_piece = kicked;
                self.events.push(GameEvent::PieceRotated);
                return true;
            }
            k += 1;
        }
        false
    }

    /// Commit the falling piece's four blocks into the board as filled cells
    /// of its kind, and record the lock.
    pub(crate) fn lock_piece(&mut self)
        requires
            wf_grid(grid_view(old(self).grid)),
            valid_position(grid_view(old(self).grid), old(self).current_piece),
        ensures
            grid_view(final(self).grid) == place_piece(
                grid_view(old(self).grid),
                old(self).current_piece,
            ),
            wf_grid(grid_view(final(self).grid)),
            final(self).events@ == old(self).events@.push(GameEvent::PieceLocked),
            final(self).current_piece == old(self).current_piece,
            final(self).preview_queue == old(self).preview_queue,
            final(self).score == old(self).score,
            final(self).lines_cleared == old(self).lines_cleared,
            final(self).level == old(self).level,
            final(self).high_score == old(self).high_score,
            final(self).state == old(self).state,
            final(self).piece_provider == old(self).piece_provider,
    {
        let ghost g0 = grid_view(old(self).grid);
        let ghost p = old(self).current_piece;
        let piece_type = self.current_piece.tetromino_type;
        proof {
            lemma_valid_anchor_bounds(g0, p);
        }
        let blocks = self.current_piece.blocks();
        proof {
            assert(forall|r: int|
                0 <= r < GRID_HEIGHT ==> (#[trigger] self.grid@[r])@ == g0[r]);
        }
        let mut j: usize = 0;
        while j < 4
            invariant
                valid_position(g0, p),
                blocks@.len() == 4,
                forall|t: int|
                    0 <= t < 4 ==> ((#[trigger] blocks@[t]).x as int, blocks@[t].y as int)
                        == block_position(p, t),
                p.tetromino_type == piece_type,
                j <= 4,
                self.grid@.len() == GRID_HEIGHT,
                g0.len() == GRID_HEIGHT,
                forall|r: int| 0 <= r < GRID_HEIGHT ==> (#[trigger] g0[r]).len() == GRID_WIDTH,
                forall|r: int|
                    0 <= r < GRID_HEIGHT ==> (#[trigger] self.grid@[r])@.len() == GRID_WIDTH,
                forall|yy: int, xx: int|
                    0 <= yy < GRID_HEIGHT && 0 <= xx < GRID_WIDTH ==> #[trigger] self.grid@[yy]@[xx]
                        == (if covers_upto(p, j as int, xx, yy) {
                        CellState::Filled(p.tetromino_type)
                    } else {
                        g0[yy][xx]
                    }),
                self.current_piece == old(self).current_piece,
                self.preview_queue == old(self).preview_queue,
                self.score == old(self).score,
                self.lines_cleared == old(self).lines_cleared,
                self.level == old(self).level,
                self.high_score == old(self).high_score,
                self.state == old(self).state,
                self.piece_provider == old(self).piece_provider,
                self.events == old(self).events,
            decreases 4 - j,
        {
            let block = blocks[j];
            proof {
                assert(block_ok(g0, block_position(p, j as int)));
            }
            if block.y >= 0 && block.y < GRID_HEIGHT as i16 {
                self.grid[block.y as usize][block.x as usize] = CellState::Filled(piece_type);
            }
            j += 1;
        }
        proof {
            assert(forall|r: int|
                0 <= r < GRID_HEIGHT ==> #[trigger] grid_view(self.grid)[r] == self.grid@[r]@);
            assert(grid_view(self.grid) =~~= place_piece(g0, p));
        }
        self.events.push(GameEvent::PieceLocked);
    }

    /// The board with the falling piece's blocks overlaid as filled cells of
    /// its kind, for display.  Read-only; blocks outside the board are left
    /// out.
    pub fn render_grid(&self) -> (r: Vec<Vec<CellState>>)
        requires
            wf_grid(grid_view(self.grid)),
        ensures
            grid_view(r) == place_piece(grid_view(self.grid), self.current_piece),
            wf_grid(grid_view(r)),
    {
        let ghost g0 = grid_view(self.grid);
        let ghost p = self.current_piece;
        let mut visual: Vec<Vec<CellState>> = Vec::new();
        let mut y: usize = 0;
        while y < GRID_HEIGHT
            invariant
                wf_grid(g0),
                g0 == grid_view(self.grid),
                y <= GRID_HEIGHT,
                visual@.len() == y,
                forall|r: int| 0 <= r < y ==> (#[trigger] visual@[r])@ == g0[r],
            decreases GRID_HEIGHT - y,
        {
            proof {
                assert(g0[y as int] == self.grid@[y as int]@);
            }
            let src = &self.grid[y];
            let mut row: Vec<CellState> = Vec::new();
            let mut x: usize = 0;
            while x < src.len()
                invariant
                    src@.len() == GRID_WIDTH,
                    x <= GRID_WIDTH,
                    row@.len() == x,
                    forall|i: int| 0 <= i < x ==> row@[i] == src@[i],
                decreases src@.len() - x,
            {
                row.push(src[x]);
                x += 1;
            }
            proof {
                assert(row@ =~= src@);
            }
            visual.push(row);
            y += 1;
        }
        let shapes = self.current_piece.tetromino_type.shapes();
        let shape = &shapes[self.current_piece.rotation % shapes.len()];
        let mut k: usize = 0;
        while k < 4
            invariant
                wf_grid(g0),
                p == self.current_piece,
                shape@ == piece_offsets(p),
                shape@.len() == 4,
                k <= 4,
                visual@.len() == GRID_HEIGHT,
                forall|r: int|
                    0 <= r < GRID_HEIGHT ==> (#[trigger] visual@[r])@.len() == GRID_WIDTH,
                forall|yy: int, xx: int|
                    0 <= yy < GRID_HEIGHT && 0 <= xx < GRID_WIDTH ==> #[trigger] visual@[yy]@[xx]
                        == (if covers_upto(p, k as int, xx, yy) {
                        CellState::Filled(p.tetromino_type)
                    } else {
                        g0[yy][xx]
                    }),
            decreases 4 - k,
        {
            let (dx, dy) = shape[k];
            let bx = self.current_piece.position.x as i32 + dx as i32;
            let by = self.current_piece.position.y as i32 + dy as i32;
            proof {
                assert(block_position(p, k as int) == (bx as int, by as int));
            }
            if 0 <= by && by < GRID_HEIGHT as i32 && 0 <= bx && bx < GRID_WIDTH as i32 {
                visual[by as usize][bx as usize] = CellState::Filled(
                    self.current_piece.tetromino_type,
                );
            }
            k += 1;
        }
        proof {
            assert(forall|r: int|
                0 <= r < GRID_HEIGHT ==> #[trigger] grid_view(visual)[r] == visual@[r]@);
            assert(grid_view(visual) =~~= place_piece(g0, p));
        }
        visual
    }

    /// Whether row `y` is complete (every cell filled).
    pub fn is_row_complete(&self, y: usize) -> (r: bool)
        requires
            wf_grid(grid_view(self.grid)),
            y < GRID_HEIGHT,
        ensures
            r == row_full(grid_view(self.grid)[y as int]),
    {
        proof {
            assert(grid_view(self.grid)[y as int] == self.grid@[y as int]@);
        }
        let row = &self.grid[y];
        let mut x: usize = 0;
        while x < row.len()
            invariant
                row@ == grid_view(self.grid)[y as int],
                x <= row@.len(),
                forall|i: int| 0 <= i < x ==> row@[i] != CellState::Empty,
            decreases row@.len() - x,
        {
            if row[x] == CellState::Empty {
                return false;
            }
            x += 1;
        }
        true
    }

    /// The number of filled cells in row `y`.
    pub fn filled_count_in_row(&self, y: usize) -> (r: usize)
        requires
            wf_grid(grid_view(self.grid)),
            y < GRID_HEIGHT,
        ensures
            r == row_filled_count(grid_view(self.grid)[y as int], GRID_WIDTH as int),
    {
        proof {
            assert(grid_view(self.grid)[y as int] == self.grid@[y as int]@);
        }
        let row = &self.grid[y];
        let mut x: usize = 0;
        let mut count: usize = 0;
        while x < GRID_WIDTH
            invariant
                row@ == grid_view(self.grid)[y as int],
                row@.len() == GRID_WIDTH,
                x <= GRID_WIDTH,
                count == row_filled_count(row@, x as int),
                count <= x,
            decreases GRID_WIDTH - x,
        {
            if row[x] != CellState::Empty {
                count += 1;
            }
            x += 1;
        }
        count
    }

    /// Scan the board for complete rows; each one found is removed and a
    /// fresh empty row pushed in at the top, so everything above shifts down
    /// one row.  The scan re-examines the same index after a removal, so
    /// complete rows that land on each other are all caught in one pass.
    /// Returns how many rows were cleared, and records the count when it is
    /// positive.
    pub fn clear_lines(&mut self) -> (cleared: u32)
        requires
            wf_grid(grid_view(old(self).grid)),
        ensures
            cleared == full_row_count(grid_view(old(self).grid)),
            grid_view(final(self).grid) == collapse(grid_view(old(self).grid)),
            wf_grid(grid_view(final(self).grid)),
            final(self).events@ == (if cleared > 0 {
                old(self).events@.push(GameEvent::LinesCleared(cleared))
            } else {
                old(self).events@
            }),
            final(self).current_piece == old(self).current_piece,
            final(self).preview_queue == old(self).preview_queue,
            final(self).score == old(self).score,
            final(self).lines_cleared == old(self).lines_cleared,
            final(self).level == old(self).level,
            final(self).high_score == old(self).high_score,
            final(self).state == old(self).state,
            final(self).piece_provider == old(self).piece_provider,
    {
        let ghost g0 = grid_view(old(self).grid);
        proof {
            lemma_clear_sizes(g0);
        }
        let mut cleared_count: u32 = 0;
        let mut y: usize = 0;
        while y < GRID_HEIGHT
            invariant
                y <= GRID_HEIGHT,
                wf_grid(g0),
                wf_grid(grid_view(self.grid)),
                0 <= full_row_count(grid_view(self.grid)),
                cleared_count as int == full_row_count(g0) - full_row_count(grid_view(self.grid)),
                0 <= cleared_count <= GRID_HEIGHT,
                collapse(grid_view(self.grid)) == collapse(g0),
                forall|r: int| 0 <= r < y ==> !row_full(#[trigger] grid_view(self.grid)[r]),
                self.current_piece == old(self).current_piece,
                self.preview_queue == old(self).preview_queue,
                self.score == old(self).score,
                self.lines_cleared == old(self).lines_cleared,
                self.level == old(self).level,
                self.high_score == old(self).high_score,
                self.state == old(self).state,
                self.piece_provider == old(self).piece_provider,
                self.events == old(self).events,
            decreases GRID_HEIGHT - y, full_row_count(grid_view(self.grid)),
        {
            if self.is_row_complete(y) {
                let ghost gc = grid_view(self.grid);
                let ghost rows0 = self.grid@;
                self.grid.remove(y);
                let ghost rows1 = self.grid@;
                let fresh = make_empty_row();
                self.grid.insert(0, fresh);
                proof {
                    lemma_rows_view_remove(rows0, y as int);
                    lemma_rows_view_insert(rows1, 0, fresh);
                    assert(grid_view(self.grid) == gc.remove(y as int).insert(0, empty_row()));
                    lemma_clear_step(gc, y as int);
                    lemma_empty_row_not_full();
                    lemma_clear_sizes(grid_view(self.grid));
                    assert forall|r: int| 0 <= r < y implies !row_full(
                        #[trigger] grid_view(self.grid)[r],
                    ) by {
                        if r > 0 {
                            assert(grid_view(self.grid)[r] == gc[r - 1]);
                        }
                    }
                }
                cleared_count = cleared_count + 1;
            } else {
                y += 1;
            }
        }
        proof {
            lemma_no_full_rows(grid_view(self.grid));
        }
        if cleared_count > 0 {
            self.events.push(GameEvent::LinesCleared(cleared_count));
        }
        cleared_count
    }

    /// Award points for `lines` simultaneously cleared lines, add them to the
    /// cleared-line total, and raise the level when the total calls for it.
    /// The score multiplier is the level from before any level-up this call
    /// triggers, and a level-up is announced exactly once, with the final
    /// level, however many thresholds were crossed.
    pub fn add_score(&mut self, lines: u32)
        requires
            old(self).score + base_score_of(lines as int) * old(self).level <= u32::MAX,
            old(self).lines_cleared + lines <= u32::MAX,
        ensures
            final(self).score == old(self).score + base_score_of(lines as int) * old(self).level,
            final(self).score >= old(self).score,
            final(self).lines_cleared == old(self).lines_cleared + lines,
            final(self).level == (if level_for(final(self).lines_cleared) > old(self).level {
                level_for(final(self).lines_cleared)
            } else {
                old(self).level as int
            }),
            final(self).events@ == (if level_for(final(self).lines_cleared) > old(self).level {
                old(self).events@.push(GameEvent::LevelUp(final(self).level))
            } else {
                old(self).events@
            }),
            old(self).level == level_for(old(self).lines_cleared) ==> final(self).level
                == level_for(final(self).lines_cleared),
            final(self).grid == old(self).grid,
            final(self).current_piece == old(self).current_piece,
            final(self).preview_queue == old(self).preview_queue,
            final(self).high_score == old(self).high_score,
            final(self).state == old(self).state,
            final(self).piece_provider == old(self).piece_provider,
    {
        let base_score: u32 = match lines {
            1 => SCORE_SINGLE,
            2 => SCORE_DOUBLE,
            3 => SCORE_TRIPLE,
            4 => SCORE_TETRIS,
            _ => 0,
        };
        self.score = self.score + base_score * self.level;
        self.lines_cleared = self.lines_cleared + lines;
        let new_level = (self.lines_cleared / LINES_PER_LEVEL) + 1;
        proof {
            vstd::arithmetic::div_mod::lemma_div_is_ordered(
                old(self).lines_cleared as int,
                self.lines_cleared as int,
                LINES_PER_LEVEL as int,
            );
        }
        if new_level > self.level {
            self.level = new_level;
            self.events.push(GameEvent::LevelUp(self.level));
        }
    }

    /// Pop the preview queue's front as the new falling piece at the spawn
    /// anchor, and refill the queue from the supply.  If the fresh piece does
    /// not fit, the game is over: exactly one GameOver event is recorded and
    /// the in-memory high score is brought up to date.  (Persisting the high
    /// score is the embedding program's affair; it sees the event.)
    pub fn spawn_next_piece(&mut self)
        requires
            wf_grid(grid_view(old(self).grid)),
            old(self).preview_queue@.len() == PREVIEW_COUNT,
            old(self).piece_provider.wf(),
            old(self).level == level_for(old(self).lines_cleared),
        ensures
            final(self).wf(),
            final(self).current_piece == spawn_tetromino(old(self).preview_queue@[0]),
            final(self).preview_queue@.len() == PREVIEW_COUNT,
            final(self).preview_queue@.subrange(0, PREVIEW_COUNT as int - 1) == old(self).preview_queue@.subrange(1, PREVIEW_COUNT as int),
            Provider::next_ok(
                old(self).piece_provider,
                final(self).piece_provider,
                final(self).preview_queue@[PREVIEW_COUNT as int - 1],
            ),
            final(self).grid == old(self).grid,
            final(self).score == old(self).score,
            final(self).lines_cleared == old(self).lines_cleared,
            final(self).level == old(self).level,
            valid_position(grid_view(old(self).grid), final(self).current_piece) ==> final(self).state == old(self).state && final(self).events@ == old(self).events@ && final(self).high_score == old(self).high_score,
            !valid_position(grid_view(old(self).grid), final(self).current_piece) ==> final(self).state == GameState::GameOver && final(self).events@ == old(self).events@.push(
                GameEvent::GameOver,
            ) && final(self).high_score as int == (if old(self).score > old(self).high_score {
                old(self).score as int
            } else {
                old(self).high_score as int
            }),
    {
        let next_type = match self.preview_queue.pop_front() {
            Some(t) => t,
            None => TetrominoType::random(),
        };
        let t = self.piece_provider.next_piece();
        self.preview_queue.push_back(t);
        self.current_piece = Tetromino::new(next_type);
        proof {
            assert(self.preview_queue@.subrange(0, PREVIEW_COUNT as int - 1) =~= old(self).preview_queue@.subrange(1, PREVIEW_COUNT as int));
        }
        if !self.is_valid_position(&self.current_piece) {
            self.state = GameState::GameOver;
            self.events.push(GameEvent::GameOver);
            if self.score > self.high_score {
                self.high_score = self.score;
            }
        }
    }

    /// Lock the piece, clear and score any complete rows, and spawn the next
    /// piece from the preview queue.
    fn lock_and_spawn(&mut self)
        requires
            old(self).wf(),
            old(self).state == GameState::Playing,
            old(self).score + 800 * old(self).level <= u32::MAX,
            old(self).lines_cleared + GRID_HEIGHT <= u32::MAX,
        ensures
            final(self).wf(),
            lock_spawn_rel(*old(self), old(self).current_piece, old(self).events@, *final(self)),
    {
        let ghost locked = place_piece(grid_view(old(self).grid), old(self).current_piece);
        self.lock_piece();
        proof {
            lemma_clear_sizes(locked);
        }
        let lines = self.clear_lines();
        if lines > 0 {
            proof {
                assert(base_score_of(lines as int) <= 800);
                vstd::arithmetic::mul::lemma_mul_inequality(
                    base_score_of(lines as int),
                    800,
                    self.level as int,
                );
            }
            self.add_score(lines);
        }
        self.spawn_next_piece();
    }

    /// Move the falling piece down one cell; when it cannot fall further,
    /// lock it, clear and score lines, and spawn the next piece.  A no-op
    /// unless the game is being played.
    pub fn soft_drop(&mut self)
        requires
            old(self).wf(),
            old(self).state == GameState::Playing ==> old(self).score + 800 * old(self).level
                <= u32::MAX && old(self).lines_cleared + GRID_HEIGHT <= u32::MAX,
        ensures
            final(self).wf(),
            old(self).state != GameState::Playing ==> *final(self) == *old(self),
            old(self).state == GameState::Playing ==> ({
                let down = moved_spec(old(self).current_piece, 0, 1);
                &&& (valid_position(old(self).gview(), down) ==> final(self).current_piece == down
                    && final(self).events@ == old(self).events@.push(GameEvent::PieceMoved)
                    && same_core(*old(self), *final(self)))
                &&& (!valid_position(old(self).gview(), down) ==> lock_spawn_rel(
                    *old(self),
                    old(self).current_piece,
                    old(self).events@,
                    *final(self),
                ))
            }),
    {
        if self.state != GameState::Playing {
            return ;
        }
        proof {
            lemma_valid_anchor_bounds(self.gview(), self.current_piece);
        }
        if !self.move_piece(0, 1) {
            self.lock_and_spawn();
        }
    }

    /// One gravity step: exactly a soft drop, and a no-op unless playing.
    pub fn tick(&mut self)
        requires
            old(self).wf(),
            old(self).state == GameState::Playing ==> old(self).score + 800 * old(self).level
                <= u32::MAX && old(self).lines_cleared + GRID_HEIGHT <= u32::MAX,
        ensures
            final(self).wf(),
            old(self).state != GameState::Playing ==> *final(self) == *old(self),
            old(self).state == GameState::Playing ==> ({
                let down = moved_spec(old(self).current_piece, 0, 1);
                &&& (valid_position(old(self).gview(), down) ==> final(self).current_piece == down
                    && final(self).events@ == old(self).events@.push(GameEvent::PieceMoved)
                    && same_core(*old(self), *final(self)))
                &&& (!valid_position(old(self).gview(), down) ==> lock_spawn_rel(
                    *old(self),
                    old(self).current_piece,
                    old(self).events@,
                    *final(self),
                ))
            }),
    {
        if self.state != GameState::Playing {
            return ;
        }
        proof {
            lemma_valid_anchor_bounds(self.gview(), self.current_piece);
        }
        if !self.move_piece(0, 1) {
            self.lock_and_spawn();
        }
    }

    /// Drop the falling piece straight down to where it rests, then lock it,
    /// clear and score lines, and spawn the next piece.  The intermediate
    /// one-cell moves leave no trace in the event log: the movement events
    /// this call itself generates are discarded before the lock is recorded,
    /// while events still pending from earlier calls stay in the log.
    pub fn hard_drop(&mut self)
        requires
            old(self).wf(),
            old(self).state == GameState::Playing ==> old(self).score + 800 * old(self).level
                <= u32::MAX && old(self).lines_cleared + GRID_HEIGHT <= u32::MAX,
        ensures
            final(self).wf(),
            old(self).state != GameState::Playing ==> *final(self) == *old(self),
            old(self).state == GameState::Playing ==> lock_spawn_rel(
                *old(self),
                landing(grid_view(old(self).grid), old(self).current_piece),
                old(self).events@,
                *final(self),
            ),
    {
        if self.state != GameState::Playing {
            return ;
        }
        let ghost g = self.gview();
        let ghost p0 = self.current_piece;
        let base_len = self.events.len();
        loop
            invariant_except_break
                self.wf(),
                self.state == GameState::Playing,
                self.grid == old(self).grid,
                g == grid_view(self.grid),
                self.preview_queue == old(self).preview_queue,
                self.score == old(self).score,
                self.lines_cleared == old(self).lines_cleared,
                self.level == old(self).level,
                self.high_score == old(self).high_score,
                self.piece_provider == old(self).piece_provider,
                valid_position(g, self.current_piece),
                landing(g, self.current_piece) == landing(g, p0),
                base_len == old(self).events@.len(),
                self.events@.len() >= base_len,
                self.events@.subrange(0, base_len as int) == old(self).events@,
            ensures
                self.wf(),
                self.state == GameState::Playing,
                self.grid == old(self).grid,
                self.preview_queue == old(self).preview_queue,
                self.score == old(self).score,
                self.lines_cleared == old(self).lines_cleared,
                self.level == old(self).level,
                self.high_score == old(self).high_score,
                self.piece_provider == old(self).piece_provider,
                self.current_piece == landing(g, p0),
                base_len == old(self).events@.len(),
                self.events@.len() >= base_len,
                self.events@.subrange(0, base_len as int) == old(self).events@,
            decreases GRID_HEIGHT as int - self.current_piece.position.y,
        {
            proof {
                lemma_valid_anchor_bounds(g, self.current_piece);
            }
            let ghost before = self.current_piece;
            if !self.move_piece(0, 1) {
                proof {
                    assert(landing(g, before) == before);
                }
                break ;
            }
            proof {
                lemma_landing_unfold(g, before);
                assert(self.events@.subrange(0, base_len as int) =~= old(self).events@);
            }
        }
        // The events this call appended are exactly the entries past the
        // length the log had on entry, and all of them are movement events:
        // cut the log back so only earlier, unrelated events remain.
        self.events.truncate(base_len);
        proof {
            assert(self.events@ == old(self).events@);
        }
        self.lock_and_spawn();
    }

    /// Whether the lifecycle has reached game over.
    pub fn is_game_over(&self) -> (r: bool)
        ensures
            r == (self.state == GameState::GameOver),
    {
        self.state == GameState::GameOver
    }

    /// The number of filled cells on the whole board.
    pub fn total_filled_cells(&self) -> (r: usize)
        requires
            wf_grid(grid_view(self.grid)),
        ensures
            r == grid_filled_count(grid_view(self.grid), GRID_HEIGHT as int),
    {
        let mut y: usize = 0;
        let mut total: usize = 0;
        while y < GRID_HEIGHT
            invariant
                wf_grid(grid_view(self.grid)),
                y <= GRID_HEIGHT,
                total == grid_filled_count(grid_view(self.grid), y as int),
                total <= y * GRID_WIDTH,
            decreases GRID_HEIGHT - y,
        {
            let c = self.filled_count_in_row(y);
            proof {
                crate::board::lemma_row_filled_count_bounds(
                    grid_view(self.grid)[y as int],
                    GRID_WIDTH as int,
                );
            }
            total += c;
            y += 1;
        }
        total
    }

    /// Toggle between playing and paused, recording the change; once the
    /// game is over this does nothing.
    pub fn toggle_pause(&mut self)
        ensures
            old(self).state == GameState::Playing ==> final(self).state == GameState::Paused
                && final(self).events@ == old(self).events@.push(GameEvent::Paused),
            old(self).state == GameState::Paused ==> final(self).state == GameState::Playing
                && final(self).events@ == old(self).events@.push(GameEvent::Unpaused),
            old(self).state == GameState::GameOver ==> *final(self) == *old(self),
            final(self).grid == old(self).grid,
            final(self).current_piece == old(self).current_piece,
            final(self).preview_queue == old(self).preview_queue,
            final(self).score == old(self).score,
            final(self).lines_cleared == old(self).lines_cleared,
            final(self).level == old(self).level,
            final(self).high_score == old(self).high_score,
            final(self).piece_provider == old(self).piece_provider,
            old(self).wf() ==> final(self).wf(),
    {
        match self.state {
            GameState::Playing => {
                self.state = GameState::Paused;
                self.events.push(GameEvent::Paused);
            },
            GameState::Paused => {
                self.state = GameState::Playing;
                self.events.push(GameEvent::Unpaused);
            },
            GameState::GameOver => {},
        }
    }

    /// Reset to a fresh playing game: empty board, zero score and lines,
    /// level one, a cleared event log, a preview queue and falling piece
    /// drawn anew from the same provider, and a single GameRestarted event.
    /// The high score is kept.
    pub fn restart(&mut self)
        requires
            old(self).piece_provider.wf(),
        ensures
            final(self).wf(),
            grid_view(final(self).grid) == empty_grid_spec(),
            final(self).score == 0,
            final(self).lines_cleared == 0,
            final(self).level == 1,
            final(self).high_score == old(self).high_score,
            final(self).state == GameState::Playing,
            final(self).events@ == seq![GameEvent::GameRestarted],
            final(self).preview_queue@.len() == PREVIEW_COUNT,
            final(self).current_piece == spawn_tetromino(
                final(self).current_piece.tetromino_type,
            ),
            old(self).piece_provider == Provider::Random ==> final(self).piece_provider
                == Provider::Random,
            (old(self).piece_provider matches Provider::Sequence(s) ==> drawn_from_sequence(
                s,
                final(self).piece_provider,
                final(self).preview_queue@,
                final(self).current_piece.tetromino_type,
            )),
    {
        let ghost p0 = self.piece_provider;
        self.grid = empty_grid();
        self.score = 0;
        self.lines_cleared = 0;
        self.level = 1;
        self.state = GameState::Playing;
        self.events.clear();
        self.preview_queue.clear();
        proof {
            if p0 is Sequence {
                let s = p0->Sequence_0;
                vstd::arithmetic::div_mod::lemma_small_mod(
                    s.index as nat,
                    s.pieces@.len() as nat,
                );
            }
        }
        let mut i: usize = 0;
        while i < PREVIEW_COUNT
            invariant
                i <= PREVIEW_COUNT,
                self.piece_provider.wf(),
                self.preview_queue@.len() == i,
                p0 == Provider::Random ==> self.piece_provider == Provider::Random,
                (p0 matches Provider::Sequence(s) ==> self.piece_provider matches
                    Provider::Sequence(sc) && sc.pieces == s.pieces && sc.index as int == (s.index
                    + i) % (s.pieces@.len() as int) && (forall|j: int|
                    0 <= j < i ==> self.preview_queue@[j] == s.pieces@[(s.index + j) % (
                    s.pieces@.len() as int)])),
                grid_view(self.grid) == empty_grid_spec(),
                wf_grid(grid_view(self.grid)),
                self.score == 0,
                self.lines_cleared == 0,
                self.level == 1,
                self.state == GameState::Playing,
                self.events@ == Seq::<GameEvent>::empty(),
                self.high_score == old(self).high_score,
            decreases PREVIEW_COUNT - i,
        {
            let t = self.piece_provider.next_piece();
            proof {
                if p0 is Sequence {
                    let s = p0->Sequence_0;
                    lemma_mod_succ(s.index + i, s.pieces@.len() as int);
                }
            }
            self.preview_queue.push_back(t);
            i += 1;
        }
        let current_type = self.piece_provider.next_piece();
        proof {
            if p0 is Sequence {
                let s = p0->Sequence_0;
                lemma_mod_succ(s.index + PREVIEW_COUNT, s.pieces@.len() as int);
            }
        }
        self.current_piece = Tetromino::new(current_type);
        self.events.push(GameEvent::GameRestarted);
        proof {
            lemma_spawn_valid_on_empty(current_type);
            assert(Seq::<GameEvent>::empty().push(GameEvent::GameRestarted) =~= seq![
                GameEvent::GameRestarted,
            ]);
        }
    }

    /// The gravity interval for the current level, in milliseconds: faster
    /// with every level, but never below the floor.
    pub fn tick_duration_ms(&self) -> (ms: u64)
        requires
            self.level >= 1,
        ensures
            ms == tick_interval(self.level),
    {
        let speed_reduction = (self.level - 1) as u64 * SPEED_INCREASE_PER_LEVEL;
        let reduced = BASE_TICK_MS.saturating_sub(speed_reduction);
        if reduced > MIN_TICK_MS {
            reduced
        } else {
            MIN_TICK_MS
        }
    }

    /// Take and clear all pending events: what has accumulated comes out, and
    /// the log is empty afterwards, so a second drain yields nothing.
    pub fn take_events(&mut self) -> (r: Vec<GameEvent>)
        ensures
            r@ == old(self).events@,
            final(self).events@ == Seq::<GameEvent>::empty(),
            drained(old(self).events@, r@, final(self).events@),
            same_core(*old(self), *final(self)),
            final(self).current_piece == old(self).current_piece,
    {
        let mut taken: Vec<GameEvent> = Vec::new();
        std::mem::swap(&mut taken, &mut self.events);
        taken
    }
}

impl Default for Game {
    /// Same as `Game::new`.
    fn default() -> (g: Self)
        ensures
            g.wf(),
            grid_view(g.grid) == empty_grid_spec(),
            g.score == 0,
            g.lines_cleared == 0,
            g.level == 1,
            g.high_score == 0,
            g.state == GameState::Playing,
            g.events@ == Seq::<GameEvent>::empty(),
            g.preview_queue@.len() == PREVIEW_COUNT,
            g.current_piece == spawn_tetromino(g.current_piece.tetromino_type),
            g.piece_provider == Provider::Random,
    {
        Self::new()
    }
}

} // verus!
