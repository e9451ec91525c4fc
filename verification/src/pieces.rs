//! Piece kinds, the per-rotation offset tables, and the falling piece itself.

use vstd::prelude::*;

verus! {

use crate::GRID_WIDTH;

/// A signed grid coordinate; `x` grows to the right, `y` grows downward.
#[derive(Clone, Copy, PartialEq, Eq, Structural, Debug)]
pub struct Position {
    pub x: i16,
    pub y: i16,
}

/// The seven piece kinds.
#[derive(Clone, Copy, PartialEq, Eq, Structural, Debug)]
pub enum TetrominoType {
    I,
    O,
    T,
    S,
    Z,
    J,
    L,
}

/// The literal offset tables: for each kind, four rotation states of four
/// block offsets each, relative to the piece anchor.  The states are written
/// out one by one rather than derived by a generic turn, because some kinds'
/// rotations are defined asymmetrically.
pub open spec fn rotation_table(t: TetrominoType) -> Seq<Seq<(i16, i16)>> {
    match t {
        TetrominoType::I => seq![
            seq![(0i16, 0i16), (1i16, 0i16), (2i16, 0i16), (3i16, 0i16)],
            seq![(0i16, 0i16), (0i16, 1i16), (0i16, 2i16), (0i16, 3i16)],
            seq![(0i16, 0i16), (1i16, 0i16), (2i16, 0i16), (3i16, 0i16)],
            seq![(0i16, 0i16), (0i16, 1i16), (0i16, 2i16), (0i16, 3i16)],
        ],
        TetrominoType::O => seq![
            seq![(0i16, 0i16), (1i16, 0i16), (0i16, 1i16), (1i16, 1i16)],
            seq![(0i16, 0i16), (1i16, 0i16), (0i16, 1i16), (1i16, 1i16)],
            seq![(0i16, 0i16), (1i16, 0i16), (0i16, 1i16), (1i16, 1i16)],
            seq![(0i16, 0i16), (1i16, 0i16), (0i16, 1i16), (1i16, 1i16)],
        ],
        TetrominoType::T => seq![
            seq![(1i16, 0i16), (0i16, 1i16), (1i16, 1i16), (2i16, 1i16)],
            seq![(0i16, 0i16), (0i16, 1i16), (1i16, 1i16), (0i16, 2i16)],
            seq![(0i16, 0i16), (1i16, 0i16), (2i16, 0i16), (1i16, 1i16)],
            seq![(1i16, 0i16), (0i16, 1i16), (1i16, 1i16), (1i16, 2i16)],
        ],
        TetrominoType::S => seq![
            seq![(1i16, 0i16), (2i16, 0i16), (0i16, 1i16), (1i16, 1i16)],
            seq![(0i16, 0i16), (0i16, 1i16), (1i16, 1i16), (1i16, 2i16)],
            seq![(1i16, 0i16), (2i16, 0i16), (0i16, 1i16), (1i16, 1i16)],
            seq![(0i16, 0i16), (0i16, 1i16), (1i16, 1i16), (1i16, 2i16)],
        ],
        TetrominoType::Z => seq![
            seq![(0i16, 0i16), (1i16, 0i16), (1i16, 1i16), (2i16, 1i16)],
            seq![(1i16, 0i16), (0i16, 1i16), (1i16, 1i16), (0i16, 2i16)],
            seq![(0i16, 0i16), (1i16, 0i16), (1i16, 1i16), (2i16, 1i16)],
            seq![(1i16, 0i16), (0i16, 1i16), (1i16, 1i16), (0i16, 2i16)],
        ],
        TetrominoType::J => seq![
            seq![(0i16, 0i16), (0i16, 1i16), (1i16, 1i16), (2i16, 1i16)],
            seq![(0i16, 0i16), (1i16, 0i16), (0i16, 1i16), (0i16, 2i16)],
            seq![(0i16, 0i16), (1i16, 0i16), (2i16, 0i16), (2i16, 1i16)],
            seq![(1i16, 0i16), (1i16, 1i16), (0i16, 2i16), (1i16, 2i16)],
        ],
        TetrominoType::L => seq![
            seq![(2i16, 0i16), (0i16, 1i16), (1i16, 1i16), (2i16, 1i16)],
            seq![(0i16, 0i16), (0i16, 1i16), (0i16, 2i16), (1i16, 2i16)],
            seq![(0i16, 0i16), (1i16, 0i16), (2i16, 0i16), (0i16, 1i16)],
            seq![(0i16, 0i16), (1i16, 0i16), (1i16, 1i16), (1i16, 2i16)],
        ],
    }
}

/// Every offset in the table lies in `[0, 3]` on both axes.
pub proof fn lemma_offset_bounds(t: TetrominoType, r: int, k: int)
    requires
        0 <= r < 4,
        0 <= k < 4,
    ensures
        0 <= rotation_table(t)[r][k].0 <= 3,
        0 <= rotation_table(t)[r][k].1 <= 3,
{
    match t {
        TetrominoType::I => {},
        TetrominoType::O => {},
        TetrominoType::T => {},
        TetrominoType::S => {},
        TetrominoType::Z => {},
        TetrominoType::J => {},
        TetrominoType::L => {},
    }
}

fn offset_row(a: (i16, i16), b: (i16, i16), c: (i16, i16), d: (i16, i16)) -> (r: Vec<(i16, i16)>)
    ensures
        r@ == seq![a, b, c, d],
{
    let mut r: Vec<(i16, i16)> = Vec::new();
    r.push(a);
    r.push(b);
    r.push(c);
    r.push(d);
    proof {
        assert(r@ =~= seq![a, b, c, d]);
    }
    r
}

impl TetrominoType {
    /// The four rotation states of this kind, exactly as in `rotation_table`.
    pub fn shapes(&self) -> (r: Vec<Vec<(i16, i16)>>)
        ensures
            r@.len() == 4,
            forall|i: int| 0 <= i < 4 ==> (#[trigger] r@[i])@ == rotation_table(*self)[i],
    {
        let mut r: Vec<Vec<(i16, i16)>> = Vec::new();
        match self {
            TetrominoType::I => {
                r.push(offset_row((0, 0), (1, 0), (2, 0), (3, 0)));
                r.push(offset_row((0, 0), (0, 1), (0, 2), (0, 3)));
                r.push(offset_row((0, 0), (1, 0), (2, 0), (3, 0)));
                r.push(offset_row((0, 0), (0, 1), (0, 2), (0, 3)));
            },
            TetrominoType::O => {
                r.push(offset_row((0, 0), (1, 0), (0, 1), (1, 1)));
                r.push(offset_row((0, 0), (1, 0), (0, 1), (1, 1)));
                r.push(offset_row((0, 0), (1, 0), (0, 1), (1, 1)));
                r.push(offset_row((0, 0), (1, 0), (0, 1), (1, 1)));
            },
            TetrominoType::T => {
                r.push(offset_row((1, 0), (0, 1), (1, 1), (2, 1)));
                r.push(offset_row((0, 0), (0, 1), (1, 1), (0, 2)));
                r.push(offset_row((0, 0), (1, 0), (2, 0), (1, 1)));
                r.push(offset_row((1, 0), (0, 1), (1, 1), (1, 2)));
            },
            TetrominoType::S => {
                r.push(offset_row((1, 0), (2, 0), (0, 1), (1, 1)));
                r.push(offset_row((0, 0), (0, 1), (1, 1), (1, 2)));
                r.push(offset_row((1, 0), (2, 0), (0, 1), (1, 1)));
                r.push(offset_row((0, 0), (0, 1), (1, 1), (1, 2)));
            },
            TetrominoType::Z => {
                r.push(offset_row((0, 0), (1, 0), (1, 1), (2, 1)));
                r.push(offset_row((1, 0), (0, 1), (1, 1), (0, 2)));
                r.push(offset_row((0, 0), (1, 0), (1, 1), (2, 1)));
                r.push(offset_row((1, 0), (0, 1), (1, 1), (0, 2)));
            },
            TetrominoType::J => {
                r.push(offset_row((0, 0), (0, 1), (1, 1), (2, 1)));
                r.push(offset_row((0, 0), (1, 0), (0, 1), (0, 2)));
                r.push(offset_row((0, 0), (1, 0), (2, 0), (2, 1)));
                r.push(offset_row((1, 0), (1, 1), (0, 2), (1, 2)));
            },
            TetrominoType::L => {
                r.push(offset_row((2, 0), (0, 1), (1, 1), (2, 1)));
                r.push(offset_row((0, 0), (0, 1), (0, 2), (1, 2)));
                r.push(offset_row((0, 0), (1, 0), (2, 0), (0, 1)));
                r.push(offset_row((0, 0), (1, 0), (1, 1), (1, 2)));
            },
        }
        r
    }
}

/// The falling piece: a kind, an anchor position, and a rotation index.
#[derive(Clone, Copy, Debug)]
pub struct Tetromino {
    pub tetromino_type: TetrominoType,
    pub position: Position,
    pub rotation: usize,
}

/// The offsets of a piece's current rotation state.
pub open spec fn piece_offsets(p: Tetromino) -> Seq<(i16, i16)> {
    rotation_table(p.tetromino_type)[p.rotation as int % 4]
}

/// The absolute coordinates of a piece's `k`-th block, as unbounded integers.
pub open spec fn block_position(p: Tetromino, k: int) -> (int, int) {
    (p.position.x + piece_offsets(p)[k].0, p.position.y + piece_offsets(p)[k].1)
}

/// A freshly spawned piece: anchored at the canonical spawn position, rotation 0.
pub open spec fn spawn_tetromino(t: TetrominoType) -> Tetromino {
    Tetromino {
        tetromino_type: t,
        position: Position { x: (GRID_WIDTH / 2 - 1) as i16, y: 0 },
        rotation: 0,
    }
}

/// The same piece translated by `(dx, dy)`.
pub open spec fn moved_spec(p: Tetromino, dx: i16, dy: i16) -> Tetromino {
    Tetromino {
        position: Position { x: (p.position.x + dx) as i16, y: (p.position.y + dy) as i16 },
        ..p
    }
}

/// The same piece turned one rotation state clockwise or counter-clockwise.
pub open spec fn rotated_spec(p: Tetromino, clockwise: bool) -> Tetromino {
    let r = if clockwise {
        (p.rotation + 1) % 4
    } else {
        (p.rotation + 3) % 4
    };
    Tetromino { rotation: r as usize, ..p }
}

impl Tetromino {
    /// A new piece of the given kind at the spawn anchor.
    pub fn new(tetromino_type: TetrominoType) -> (r: Self)
        ensures
            r == spawn_tetromino(tetromino_type),
    {
        Self {
            tetromino_type,
            position: Position { x: (GRID_WIDTH as i16) / 2 - 1, y: 0 },
            rotation: 0,
        }
    }

    /// A new piece of the given kind at an arbitrary anchor, rotation 0.
    pub fn new_at(tetromino_type: TetrominoType, x: i16, y: i16) -> (r: Self)
        ensures
            r == (Tetromino { tetromino_type, position: Position { x, y }, rotation: 0 }),
    {
        Self { tetromino_type, position: Position { x, y }, rotation: 0 }
    }

    /// The absolute coordinates of the four blocks.
    pub fn blocks(&self) -> (r: Vec<Position>)
        requires
            self.position.x + 3 <= i16::MAX,
            self.position.y + 3 <= i16::MAX,
        ensures
            r@.len() == 4,
            forall|k: int|
                0 <= k < 4 ==> ((#[trigger] r@[k]).x as int, r@[k].y as int) == block_position(
                    *self,
                    k,
                ),
    {
        let shapes = self.tetromino_type.shapes();
        let shape = &shapes[self.rotation % shapes.len()];
        let mut r: Vec<Position> = Vec::new();
        let mut k: usize = 0;
        while k < shape.len()
            invariant
                self.position.x + 3 <= i16::MAX,
                self.position.y + 3 <= i16::MAX,
                shape@ == piece_offsets(*self),
                shape@.len() == 4,
                k <= 4,
                r@.len() == k,
                forall|j: int|
                    0 <= j < k ==> ((#[trigger] r@[j]).x as int, r@[j].y as int) == block_position(
                        *self,
                        j,
                    ),
            decreases 4 - k,
        {
            let (dx, dy) = shape[k];
            proof {
                lemma_offset_bounds(self.tetromino_type, self.rotation as int % 4, k as int);
            }
            r.push(Position { x: self.position.x + dx, y: self.position.y + dy });
            k += 1;
        }
        r
    }

    /// The same piece turned one rotation state; the anchor does not move.
    pub(crate) fn rotated(&self, clockwise: bool) -> (r: Self)
        ensures
            r == rotated_spec(*self, clockwise),
    {
        let base = self.rotation % 4;
        let rotation = if clockwise {
            (base + 1) % 4
        } else {
            (base + 3) % 4
        };
        proof {
            vstd::arithmetic::div_mod::lemma_add_mod_noop(self.rotation as int, 1, 4);
            vstd::arithmetic::div_mod::lemma_add_mod_noop(self.rotation as int, 3, 4);
        }
        Self { tetromino_type: self.tetromino_type, position: self.position, rotation }
    }

    /// The same piece translated by `(dx, dy)`.
    pub(crate) fn moved(&self, dx: i16, dy: i16) -> (r: Self)
        requires
            i16::MIN <= self.position.x + dx <= i16::MAX,
            i16::MIN <= self.position.y + dy <= i16::MAX,
        ensures
            r == moved_spec(*self, dx, dy),
    {
        Self {
            tetromino_type: self.tetromino_type,
            position: Position { x: self.position.x + dx, y: self.position.y + dy },
            rotation: self.rotation,
        }
    }
}

} // verus!
