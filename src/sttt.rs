//! The state of a game of super tic-tac-toe as its evaluators read it: nine
//! small 3x3 boards ("macros") of nine tiles each.
use vstd::prelude::*;
use crate::board::{Board, Outcome, Player};

verus! {

/// A tile of the 9x9 board, as `9 * om + os`: macro `om`, tile `os` within it.
#[derive(Debug, Clone, Copy, PartialEq, Eq, Structural, Hash)]
pub struct Coord {
    o: u8,
}

impl Coord {
    #[verifier::type_invariant]
    spec fn inv(self) -> bool {
        self.o < 81
    }

    pub closed spec fn o_spec(self) -> int {
        self.o as int
    }

    pub open spec fn om_spec(self) -> int {
        self.o_spec() / 9
    }

    pub open spec fn os_spec(self) -> int {
        self.o_spec() % 9
    }

    /// The tile `os` of macro `om`.
    pub fn from_oo(om: u8, os: u8) -> (r: Coord)
        requires
            om < 9,
            os < 9,
        ensures
            r.om_spec() == om,
            r.os_spec() == os,
            r.o_spec() == 9 * om + os,
    {
        Coord { o: 9 * om + os }
    }

    /// The tile with index `o`.
    pub fn from_o(o: u8) -> (r: Coord)
        requires
            o < 81,
        ensures
            r.o_spec() == o,
    {
        Coord { o }
    }

    /// The index of this tile, `9 * om + os`.
    pub fn o(self) -> (r: u8)
        ensures
            r == self.o_spec(),
            r < 81,
    {
        proof { use_type_invariant(&self); }
        self.o
    }

    /// The macro that holds this tile.
    pub fn om(self) -> (r: u8)
        ensures
            r == self.om_spec(),
            r < 9,
    {
        proof { use_type_invariant(&self); }
        self.o / 9
    }

    /// The position of this tile within its macro.
    pub fn os(self) -> (r: u8)
        ensures
            r == self.os_spec(),
            r < 9,
    {
        self.o % 9
    }
}

/// A position: who holds each tile and each macro, who moves next, and how
/// the game ended, if it did.
#[derive(Debug, Clone)]
pub struct STTTBoard {
    tiles: Vec<Option<Player>>,
    macrs: Vec<Option<Player>>,
    next_player: Player,
    outcome: Option<Outcome>,
}

impl STTTBoard {
    /// Whether the board has a tile list of 81 entries and a macro list of 9.
    pub open spec fn wf(&self) -> bool {
        self.tiles_spec().len() == 81 && self.macrs_spec().len() == 9
    }

    /// Who holds each tile, by tile index.
    pub closed spec fn tiles_spec(&self) -> Seq<Option<Player>> {
        self.tiles@
    }

    /// Who holds each macro, by macro index.
    pub closed spec fn macrs_spec(&self) -> Seq<Option<Player>> {
        self.macrs@
    }

    /// The position with the given contents; `None` unless there are 81
    /// tiles and 9 macros.
    pub fn new(
        tiles: Vec<Option<Player>>,
        macrs: Vec<Option<Player>>,
        next_player: Player,
        outcome: Option<Outcome>,
    ) -> (r: Option<STTTBoard>)
        ensures
            r.is_some() <==> (tiles@.len() == 81 && macrs@.len() == 9),
            r.is_some() ==> {
                let b = r.unwrap();
                &&& b.wf()
                &&& b.tiles_spec() == tiles@
                &&& b.macrs_spec() == macrs@
                &&& b.next_player_spec() == next_player
                &&& b.outcome_spec() == outcome
            },
    {
        if tiles.len() == 81 && macrs.len() == 9 {
            Some(STTTBoard { tiles, macrs, next_player, outcome })
        } else {
            None
        }
    }

    /// The empty board, with `A` to move.
    pub fn empty() -> (r: STTTBoard)
        ensures
            r.wf(),
            r.tiles_spec() == Seq::new(81, |i: int| None::<Player>),
            r.macrs_spec() == Seq::new(9, |i: int| None::<Player>),
            r.next_player_spec() == Player::A,
            r.outcome_spec().is_none(),
    {
        let mut tiles: Vec<Option<Player>> = Vec::new();
        let mut i: usize = 0;
        while i < 81
            invariant
                i <= 81,
                tiles@ == Seq::new(i as nat, |j: int| None::<Player>),
            decreases 81 - i,
        {
            tiles.push(None);
            i = i + 1;
            assert(tiles@ =~= Seq::new(i as nat, |j: int| None::<Player>));
        }
        let mut macrs: Vec<Option<Player>> = Vec::new();
        let mut k: usize = 0;
        while k < 9
            invariant
                k <= 9,
                macrs@ == Seq::new(k as nat, |j: int| None::<Player>),
            decreases 9 - k,
        {
            macrs.push(None);
            k = k + 1;
            assert(macrs@ =~= Seq::new(k as nat, |j: int| None::<Player>));
        }
        STTTBoard { tiles, macrs, next_player: Player::A, outcome: None }
    }

    /// Who holds tile `c`.
    pub fn tile(&self, c: Coord) -> (r: Option<Player>)
        requires
            self.wf(),
        ensures
            r == self.tiles_spec()[c.o_spec()],
    {
        self.tiles[c.o() as usize]
    }

    /// Who holds macro `om`.
    pub fn macr(&self, om: u8) -> (r: Option<Player>)
        requires
            self.wf(),
            om < 9,
        ensures
            r == self.macrs_spec()[om as int],
    {
        self.macrs[om as usize]
    }
}

impl Board for STTTBoard {
    closed spec fn next_player_spec(&self) -> Player {
        self.next_player
    }

    closed spec fn outcome_spec(&self) -> Option<Outcome> {
        self.outcome
    }

    fn next_player(&self) -> (r: Player) {
        self.next_player
    }

    fn outcome(&self) -> (r: Option<Outcome>) {
        self.outcome
    }

    fn is_done(&self) -> (r: bool) {
        self.outcome.is_some()
    }
}

} // verus!
