//! The parts of the game of Go that position hashing reads.
use vstd::prelude::*;
use crate::board::Outcome;

verus! {

/// The largest board side that is supported.
pub const GO_MAX_SIZE: u8 = 19;

/// The number of cells of the largest supported board.
pub const GO_MAX_AREA: u16 = 361;

/// A cell of the largest supported board, as a row-major index.
#[derive(Debug, Clone, Copy, PartialEq, Eq, Structural, Hash)]
pub struct FlatTile {
    index: u16,
}

impl FlatTile {
    #[verifier::type_invariant]
    spec fn inv(self) -> bool {
        self.index < GO_MAX_AREA
    }

    pub closed spec fn index_spec(self) -> int {
        self.index as int
    }

    /// The cell with row-major index `index`.
    pub fn new(index: u16) -> (r: FlatTile)
        requires
            index < GO_MAX_AREA,
        ensures
            r.index_spec() == index,
    {
        FlatTile { index }
    }

    /// The row-major index of this cell.
    pub fn index(self) -> (r: u16)
        ensures
            r == self.index_spec(),
            r < GO_MAX_AREA,
    {
        proof { use_type_invariant(&self); }
        self.index
    }
}

/// The phase of a game of Go: passes decide when it ends.
#[derive(Debug, Clone, Copy, PartialEq, Eq, Structural, Hash)]
pub enum State {
    Normal,
    Passed,
    Done(Outcome),
}

impl State {
    /// The phase marker that enters the position hash: the outcome of a
    /// finished game is left out, as the stones already determine it.
    pub open spec fn phase_index(self) -> int {
        match self {
            State::Normal => 0,
            State::Passed => 1,
            State::Done(_) => 2,
        }
    }
}

} // verus!
