//! Piece supply: a trait for sources of upcoming kinds, a deterministic
//! cyclic source for reproducible play, and the built-in random source.

use vstd::prelude::*;

verus! {

use crate::pieces::TetrominoType;
use rand::Rng;

/// Relies on rand::thread_rng and rand::Rng::gen_range: sampling the
/// non-empty range `0..7` returns a value below 7.
#[verifier::external_body]
fn draw_kind_index() -> (r: u8)
    ensures
        r < 7,
{
    rand::thread_rng().gen_range(0..7)
}

impl TetrominoType {
    /// A kind drawn uniformly at random.  Nothing is promised about which.
    pub(crate) fn random() -> Self {
        match draw_kind_index() {
            0 => TetrominoType::I,
            1 => TetrominoType::O,
            2 => TetrominoType::T,
            3 => TetrominoType::S,
            4 => TetrominoType::Z,
            5 => TetrominoType::J,
            _ => TetrominoType::L,
        }
    }
}

/// A source of upcoming piece kinds.
pub trait PieceProvider: Sized {
    /// Whether the source is able to keep producing kinds.
    spec fn wf(&self) -> bool;

    /// What one draw does: how the state after relates to the state before,
    /// and which kind came out.
    spec fn next_ok(pre: Self, post: Self, t: TetrominoType) -> bool;

    /// Produce the next piece kind.
    fn next_piece(&mut self) -> (t: TetrominoType)
        requires
            old(self).wf(),
        ensures
            final(self).wf(),
            Self::next_ok(*old(self), *final(self), t),
    ;
}

/// A deterministic source that cycles through a fixed list of kinds.
pub struct SequencePieceProvider {
    pub pieces: Vec<TetrominoType>,
    pub index: usize,
}

impl SequencePieceProvider {
    /// A provider that yields `pieces` in order, wrapping around forever.
    pub fn new(pieces: Vec<TetrominoType>) -> (r: Self)
        ensures
            r.pieces == pieces,
            r.index == 0,
    {
        Self { pieces, index: 0 }
    }
}

impl PieceProvider for SequencePieceProvider {
    open spec fn wf(&self) -> bool {
        self.pieces@.len() > 0 && self.index < self.pieces@.len()
    }

    open spec fn next_ok(pre: Self, post: Self, t: TetrominoType) -> bool {
        &&& post.pieces == pre.pieces
        &&& pre.pieces@.len() > 0
        &&& post.index == (pre.index + 1) % (pre.pieces@.len() as int)
        &&& t == pre.pieces@[pre.index as int]
    }

    fn next_piece(&mut self) -> (t: TetrominoType) {
        let n = self.pieces.len();
        let t = self.pieces[self.index];
        self.index = (self.index + 1) % n;
        t
    }
}

/// The engine's piece supply: the built-in uniform random source, or a
/// deterministic cyclic sequence for reproducible scenarios.
pub enum Provider {
    Random,
    Sequence(SequencePieceProvider),
}

impl Provider {
    /// Whether the supply can keep producing kinds.
    pub open spec fn wf(self) -> bool {
        match self {
            Provider::Random => true,
            Provider::Sequence(s) => s.wf(),
        }
    }

    /// What one draw does, by variant.  A random draw promises nothing about
    /// the kind; a sequence draw yields the kind at the cursor and advances it.
    pub open spec fn next_ok(pre: Provider, post: Provider, t: TetrominoType) -> bool {
        match pre {
            Provider::Random => post == Provider::Random,
            Provider::Sequence(s) => match post {
                Provider::Sequence(s2) => <SequencePieceProvider as PieceProvider>::next_ok(
                    s,
                    s2,
                    t,
                ),
                _ => false,
            },
        }
    }

    /// Produce the next piece kind from whichever source this is.
    pub fn next_piece(&mut self) -> (t: TetrominoType)
        requires
            old(self).wf(),
        ensures
            final(self).wf(),
            Provider::next_ok(*old(self), *final(self), t),
    {
        match self {
            Provider::Random => TetrominoType::random(),
            Provider::Sequence(s) => s.next_piece(),
        }
    }
}

} // verus!
