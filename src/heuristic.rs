//! Position evaluators: the exact value of finished games, and a tile
//! weighting for super tic-tac-toe.
use vstd::prelude::*;
use crate::board::{Board, Outcome, OutcomeWDL, Player};
use crate::sttt::{Coord, STTTBoard};

verus! {

/// The value of a position for a solver: a win or loss after a number of
/// plies, a draw, or not known yet.
#[derive(Debug, Clone, Copy, PartialEq, Eq, Structural, Hash)]
pub enum SolverValue {
    WinIn(u32),
    LossIn(u32),
    Draw,
    Unknown,
}

impl SolverValue {
    /// Whether the ply count fits below `i32::MAX`.
    pub open spec fn fits(self) -> bool {
        match self {
            SolverValue::WinIn(n) => n <= i32::MAX,
            SolverValue::LossIn(n) => n <= i32::MAX,
            _ => true,
        }
    }

    /// Wins rank above every heuristic value, earlier wins above later ones;
    /// losses mirror them.
    pub open spec fn to_i32_spec(self) -> int {
        match self {
            SolverValue::WinIn(n) => i32::MAX - n,
            SolverValue::LossIn(n) => n - i32::MAX,
            _ => 0,
        }
    }

    /// This value as a plain integer score.
    pub fn to_i32(self) -> (r: i32)
        requires
            self.fits(),
        ensures
            r == self.to_i32_spec(),
    {
        match self {
            SolverValue::WinIn(n) => i32::MAX - n as i32,
            SolverValue::LossIn(n) => n as i32 - i32::MAX,
            _ => 0,
        }
    }
}

/// The solver value of a position with outcome `outcome`, `pov` to move,
/// reached after `length` plies.
pub open spec fn solver_value(outcome: Option<Outcome>, pov: Player, length: u32) -> SolverValue {
    match outcome {
        None => SolverValue::Unknown,
        Some(o) => match o.pov_spec(pov) {
            OutcomeWDL::Win => SolverValue::WinIn(length),
            OutcomeWDL::Draw => SolverValue::Draw,
            OutcomeWDL::Loss => SolverValue::LossIn(length),
        },
    }
}

/// The evaluator that only knows finished games.
#[derive(Debug, Clone, Copy)]
pub struct SolverHeuristic;

impl SolverHeuristic {
    /// The exact value of `board` for the player to move, after `length` plies.
    pub fn value<B: Board>(&self, board: &B, length: u32) -> (r: SolverValue)
        ensures
            r == solver_value(board.outcome_spec(), board.next_player_spec(), length),
    {
        match board.outcome() {
            None => SolverValue::Unknown,
            Some(o) => match o.pov(board.next_player()) {
                OutcomeWDL::Win => SolverValue::WinIn(length),
                OutcomeWDL::Draw => SolverValue::Draw,
                OutcomeWDL::Loss => SolverValue::LossIn(length),
            },
        }
    }
}

/// `1` for a cell held by `pov`, `-1` for one held by the other player, `0`
/// for an empty one.
pub open spec fn owner_sign(owner: Option<Player>, pov: Player) -> int {
    match owner {
        None => 0,
        Some(p) => p.sign_spec(pov),
    }
}

/// The sum over the first `k` cells of weight times owner sign.
pub open spec fn weighted_sum(
    owners: Seq<Option<Player>>,
    weights: Seq<int>,
    pov: Player,
    k: int,
) -> int
    decreases k,
{
    if k <= 0 {
        0
    } else {
        weighted_sum(owners, weights, pov, k - 1) + weights[k - 1] * owner_sign(owners[k - 1], pov)
    }
}

/// Where a cell lies within a 3x3 square: side, corner or center.
pub open spec fn oo_class(oo: int) -> int {
    if oo == 4 {
        2
    } else if oo % 2 == 0 {
        1
    } else {
        0
    }
}

/// The larger of two values, and whether the second one is at least the first.
pub open spec fn merge_spec(old: i32, new: i32) -> (i32, bool) {
    (if new >= old { new } else { old }, new >= old)
}

/// An evaluator of positions of type `B`, reached by moves of type `M`.
/// Values are seen from the side of the player to move.
pub trait Heuristic<B, M> {
    /// Whether `value` can evaluate `board` after `length` plies.
    spec fn value_req(&self, board: &B, length: u32) -> bool;

    /// The value of `board` after `length` plies.
    spec fn value_spec(&self, board: &B, length: u32) -> int;

    /// Whether `value_update` can derive the value of `child` from that of
    /// `board`.
    spec fn value_update_req(
        &self,
        board: &B,
        board_value: i32,
        board_length: u32,
        mv: M,
        child: &B,
    ) -> bool;

    /// The value of `child`, reached from `board` of value `board_value` by `mv`.
    spec fn value_update_spec(
        &self,
        board: &B,
        board_value: int,
        board_length: u32,
        mv: M,
        child: &B,
    ) -> int;

    /// Evaluates `board` from scratch.
    fn value(&self, board: &B, length: u32) -> (r: i32)
        requires
            self.value_req(board, length),
        ensures
            r == self.value_spec(board, length);

    /// Evaluates `child`, the position after `mv` on `board`, from the value
    /// of `board`.
    fn value_update(
        &self,
        board: &B,
        board_value: i32,
        board_length: u32,
        mv: M,
        child: &B,
    ) -> (r: i32)
        requires
            self.value_update_req(board, board_value, board_length, mv, child),
        ensures
            r == self.value_update_spec(board, board_value as int, board_length, mv, child);

    /// Backs a child's value up into its parent: the value kept, and whether
    /// `new` takes over.
    fn merge(old: i32, new: i32) -> (r: (i32, bool))
        ensures
            r == merge_spec(old, new);
}

/// Weighs tiles and macros by where they lie: center over corner over side,
/// and a won macro far above any tile.
#[derive(Debug)]
pub struct STTTTileHeuristic {
    oo_factors: [i32; 3],
    macro_factor: i32,
}

impl Default for STTTTileHeuristic {
    fn default() -> (r: STTTTileHeuristic)
        ensures
            r.wf(),
    {
        STTTTileHeuristic { oo_factors: [1, 3, 4], macro_factor: 1000 }
    }
}

impl STTTTileHeuristic {
    #[verifier::type_invariant]
    spec fn inv(self) -> bool {
        &&& self.oo_factors[0] == 1
        &&& self.oo_factors[1] == 3
        &&& self.oo_factors[2] == 4
        &&& self.macro_factor == 1000
    }

    /// The weights of the default evaluator.
    pub closed spec fn wf(&self) -> bool {
        self.inv()
    }

    /// The weight of position `oo` within a 3x3 square.
    pub closed spec fn oo_factor_spec(&self, oo: int) -> int {
        self.oo_factors[oo_class(oo)] as int
    }

    /// The bonus weight of a won macro.
    pub closed spec fn macro_factor_spec(&self) -> int {
        self.macro_factor as int
    }

    /// The weight of each tile, by tile index.
    pub open spec fn tile_weights(&self) -> Seq<int> {
        Seq::new(81, |o: int| self.oo_factor_spec(o / 9) * self.oo_factor_spec(o % 9))
    }

    /// The weight of each macro, by macro index.
    pub open spec fn macro_weights(&self) -> Seq<int> {
        Seq::new(9, |om: int| self.oo_factor_spec(om))
    }

    /// The weight of position `oo` within a 3x3 square.
    pub fn oo_factor(&self, oo: u8) -> (r: i32)
        requires
            oo < 9,
        ensures
            r == self.oo_factor_spec(oo as int),
            1 <= r <= 4,
    {
        proof { use_type_invariant(self); }
        let index: usize = if oo == 4 {
            2
        } else if oo % 2 == 0 {
            1
        } else {
            0
        };
        self.oo_factors[index]
    }
}

impl Heuristic<STTTBoard, Coord> for STTTTileHeuristic {
    open spec fn value_req(&self, board: &STTTBoard, length: u32) -> bool {
        board.wf() && length <= i32::MAX
    }

    open spec fn value_update_req(
        &self,
        board: &STTTBoard,
        board_value: i32,
        board_length: u32,
        mv: Coord,
        child: &STTTBoard,
    ) -> bool {
        &&& child.wf()
        &&& board_length < i32::MAX
        &&& i32::MIN < board_value
        &&& board_value + 4016 <= i32::MAX
    }

    /// The value of `board` for the player to move, after `length` plies.
    open spec fn value_spec(&self, board: &STTTBoard, length: u32) -> int {
        if board.outcome_spec().is_some() {
            solver_value(board.outcome_spec(), board.next_player_spec(), length).to_i32_spec()
        } else {
            weighted_sum(board.tiles_spec(), self.tile_weights(), board.next_player_spec(), 81)
                + self.macro_factor_spec() * weighted_sum(
                board.macrs_spec(),
                self.macro_weights(),
                board.next_player_spec(),
                9,
            )
        }
    }

    /// The value of `child`, reached from a position of value `board_value` by
    /// the move `mv`, computed from the move alone.
    open spec fn value_update_spec(
        &self,
        board: &STTTBoard,
        board_value: int,
        board_length: u32,
        mv: Coord,
        child: &STTTBoard,
    ) -> int {
        if child.outcome_spec().is_some() {
            self.value_spec(child, (board_length + 1) as u32)
        } else {
            -(board_value + self.oo_factor_spec(mv.om_spec()) * self.oo_factor_spec(mv.os_spec())
                + if child.macrs_spec()[mv.om_spec()].is_some() {
                self.macro_factor_spec() * self.oo_factor_spec(mv.om_spec())
            } else {
                0
            })
        }
    }

    /// The value of `board` for the player to move, after `length` plies: the
    /// exact solver value once the game is over, else the weighted tiles and
    /// macros, each counted for or against the player to move.
    fn value(&self, board: &STTTBoard, length: u32) -> (r: i32)
        ensures
            r == self.value_spec(board, length),
    {
        proof { use_type_invariant(self); }
        if board.is_done() {
            return SolverHeuristic.value(board, length).to_i32();
        }
        let next = board.next_player();
        let ghost tw = self.tile_weights();
        let ghost mw = self.macro_weights();

        let mut tile_value: i32 = 0;
        let mut o: u8 = 0;
        while o < 81
            invariant
                self.inv(),
                board.wf(),
                tw == self.tile_weights(),
                next == board.next_player_spec(),
                o <= 81,
                tile_value == weighted_sum(board.tiles_spec(), tw, next, o as int),
                -16 * (o as int) <= tile_value <= 16 * (o as int),
            decreases 81 - o,
        {
            let c = Coord::from_o(o);
            let f_om = self.oo_factor(c.om());
            let f_os = self.oo_factor(c.os());
            assert(1 <= f_om * f_os <= 16) by (nonlinear_arith)
                requires 1 <= f_om <= 4, 1 <= f_os <= 4;
            let w = f_om * f_os;
            let sign: i32 = match board.tile(c) {
                None => 0,
                Some(p) => p.sign(next),
            };
            assert(1 <= w <= 16) by (nonlinear_arith)
                requires w == self.oo_factor_spec(c.om_spec()) * self.oo_factor_spec(c.os_spec()),
                    1 <= self.oo_factor_spec(c.om_spec()) <= 4,
                    1 <= self.oo_factor_spec(c.os_spec()) <= 4;
            assert(-16 <= w * sign <= 16) by (nonlinear_arith)
                requires 1 <= w <= 16, -1 <= sign <= 1;
            assert(w * sign == tw[o as int] * owner_sign(board.tiles_spec()[o as int], next));
            tile_value = tile_value + w * sign;
            o = o + 1;
        }

        let mut macr_sum: i32 = 0;
        let mut om: u8 = 0;
        while om < 9
            invariant
                self.inv(),
                board.wf(),
                mw == self.macro_weights(),
                next == board.next_player_spec(),
                om <= 9,
                macr_sum == weighted_sum(board.macrs_spec(), mw, next, om as int),
                -4 * (om as int) <= macr_sum <= 4 * (om as int),
            decreases 9 - om,
        {
            let w = self.oo_factor(om);
            let sign: i32 = match board.macr(om) {
                None => 0,
                Some(p) => p.sign(next),
            };
            assert(-4 <= w * sign <= 4) by (nonlinear_arith)
                requires 1 <= w <= 4, -1 <= sign <= 1;
            macr_sum = macr_sum + w * sign;
            om = om + 1;
        }
        tile_value + macr_sum * self.macro_factor
    }

    /// The value of `child`, the position after `mv` is played on `board`,
    /// from the value `board_value` of `board` after `board_length` plies:
    /// the move's tile, and the macro it wins, if any, are added, and the sum
    /// changes sides.
    fn value_update(
        &self,
        board: &STTTBoard,
        board_value: i32,
        board_length: u32,
        mv: Coord,
        child: &STTTBoard,
    ) -> (r: i32)
        ensures
            r == self.value_update_spec(board, board_value as int, board_length, mv, child),
    {
        proof { use_type_invariant(self); }
        if child.is_done() {
            return self.value(child, board_length + 1);
        }
        let mut neg_child_value: i32 = board_value;
        let f_om = self.oo_factor(mv.om());
        let f_os = self.oo_factor(mv.os());
        assert(1 <= f_om * f_os <= 16) by (nonlinear_arith)
            requires 1 <= f_om <= 4, 1 <= f_os <= 4;
        neg_child_value = neg_child_value + f_om * f_os;
        if child.macr(mv.om()).is_some() {
            neg_child_value = neg_child_value + self.macro_factor * f_om;
        }
        -neg_child_value
    }

    /// Backs a child's value up into its parent: the larger value, and whether
    /// `new` takes over, as it does on a tie.
    fn merge(old: i32, new: i32) -> (r: (i32, bool))
        ensures
            r == merge_spec(old, new),
    {
        (if new >= old { new } else { old }, new >= old)
    }
}

/// Whether `child` is `board` after its player to move took the free tile
/// `mv`, possibly winning that tile's macro, with the turn passed on.
pub open spec fn is_child_by(board: &STTTBoard, mv: Coord, child: &STTTBoard) -> bool {
    &&& board.wf()
    &&& child.wf()
    &&& 0 <= mv.o_spec() < 81
    &&& board.outcome_spec().is_none()
    &&& board.tiles_spec()[mv.o_spec()].is_none()
    &&& board.macrs_spec()[mv.om_spec()].is_none()
    &&& child.tiles_spec() == board.tiles_spec().update(mv.o_spec(), Some(board.next_player_spec()))
    &&& (child.macrs_spec() == board.macrs_spec() || child.macrs_spec() == board.macrs_spec().update(
        mv.om_spec(),
        Some(board.next_player_spec()),
    ))
    &&& child.next_player_spec() == board.next_player_spec().other_spec()
}

proof fn lemma_weighted_sum_flip(owners: Seq<Option<Player>>, weights: Seq<int>, pov: Player, k: int)
    ensures
        weighted_sum(owners, weights, pov.other_spec(), k) == -weighted_sum(owners, weights, pov, k),
    decreases k,
{
    if k > 0 {
        lemma_weighted_sum_flip(owners, weights, pov, k - 1);
        let w = weights[k - 1];
        let s = owner_sign(owners[k - 1], pov);
        assert(owner_sign(owners[k - 1], pov.other_spec()) == -s);
        assert(w * (-s) == -(w * s)) by (nonlinear_arith);
    }
}

proof fn lemma_weighted_sum_place(
    owners: Seq<Option<Player>>,
    weights: Seq<int>,
    pov: Player,
    m: int,
    k: int,
)
    requires
        0 <= m < owners.len(),
        owners[m].is_none(),
        k <= owners.len(),
    ensures
        weighted_sum(owners.update(m, Some(pov)), weights, pov.other_spec(), k) == -(weighted_sum(
            owners,
            weights,
            pov,
            k,
        ) + if m < k {
            weights[m]
        } else {
            0
        }),
    decreases k,
{
    if k > 0 {
        lemma_weighted_sum_place(owners, weights, pov, m, k - 1);
        let placed = owners.update(m, Some(pov));
        let w = weights[k - 1];
        if k - 1 == m {
            assert(owner_sign(placed[m], pov.other_spec()) == -1);
        } else {
            let s = owner_sign(owners[k - 1], pov);
            assert(placed[k - 1] == owners[k - 1]);
            assert(owner_sign(owners[k - 1], pov.other_spec()) == -s);
            assert(w * (-s) == -(w * s)) by (nonlinear_arith);
        }
    }
}

/// The value of a position depends on its contents alone: two evaluations of
/// positions with the same tiles, macros, player to move and outcome agree.
pub proof fn lemma_value_deterministic(
    h: &STTTTileHeuristic,
    a: &STTTBoard,
    b: &STTTBoard,
    length: u32,
)
    requires
        a.tiles_spec() == b.tiles_spec(),
        a.macrs_spec() == b.macrs_spec(),
        a.next_player_spec() == b.next_player_spec(),
        a.outcome_spec() == b.outcome_spec(),
    ensures
        h.value_spec(a, length) == h.value_spec(b, length),
{
}

/// The incremental update agrees with evaluating the child from scratch: for a
/// move on a position that is not finished, with or without a won macro and
/// whether or not it ends the game, `value_update` of the parent's value gives
/// the child's value one ply deeper.
pub proof fn lemma_value_update_matches_value(
    h: &STTTTileHeuristic,
    board: &STTTBoard,
    length: u32,
    mv: Coord,
    child: &STTTBoard,
)
    requires
        h.wf(),
        is_child_by(board, mv, child),
        length < i32::MAX,
    ensures
        h.value_update_spec(board, h.value_spec(board, length), length, mv, child) == h.value_spec(
            child,
            (length + 1) as u32,
        ),
{
    if child.outcome_spec().is_none() {
        let pov = board.next_player_spec();
        let tw = h.tile_weights();
        let mw = h.macro_weights();
        let o = mv.o_spec();
        let om = mv.om_spec();
        lemma_weighted_sum_place(board.tiles_spec(), tw, pov, o, 81);
        assert(tw[o] == h.oo_factor_spec(mv.om_spec()) * h.oo_factor_spec(mv.os_spec()));
        if child.macrs_spec() == board.macrs_spec() {
            lemma_weighted_sum_flip(board.macrs_spec(), mw, pov, 9);
        } else {
            lemma_weighted_sum_place(board.macrs_spec(), mw, pov, om, 9);
            assert(child.macrs_spec()[om].is_some());
        }
    }
}

/// The backed-up value is the larger of the two whichever comes first; only
/// the flag depends on the order, and a tie goes to the newer value.
pub proof fn lemma_merge_value_symmetric(a: i32, b: i32)
    ensures
        merge_spec(a, b).0 == merge_spec(b, a).0,
        merge_spec(a, b).0 == if a >= b {
            a
        } else {
            b
        },
        merge_spec(a, b).1 == (b >= a),
{
}

} // verus!
