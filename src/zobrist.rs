//! Position fingerprints: XOR of random values, one per feature of a position.
use vstd::prelude::*;
use rand::distributions::Distribution;
use rand::SeedableRng;
use crate::board::Player;
use crate::go::{FlatTile, State, GO_MAX_AREA};

verus! {

/// The values that the generator seeded with `seed` hands out first, `count` of them.
pub uninterp spec fn seeded_draws(seed: u64, count: nat) -> Seq<u128>;

/// Relies on rand's `StdRng::seed_from_u64` and on sampling `u128` from
/// `Standard`: the first `count` values of a generator with a fixed seed
/// depend on that seed alone.
#[verifier::external_body]
fn draw_seeded(seed: u64, count: usize) -> (r: Vec<u128>)
    ensures
        r@ == seeded_draws(seed, count as nat),
        r@.len() == count,
{
    let rng = rand::rngs::StdRng::seed_from_u64(seed);
    rand::distributions::Standard.sample_iter(rng).take(count).collect()
}

/// The seed of the fingerprint table: fixed, so that fingerprints are the same
/// in every run.
pub const HASH_SEED: u64 = 0;

/// The number of random values in the fingerprint table.
pub const HASH_TABLE_LEN: usize = 727;

/// The random values of the fingerprint table, in the order they are drawn.
pub open spec fn table_draws() -> Seq<u128> {
    seeded_draws(HASH_SEED, HASH_TABLE_LEN as nat)
}

/// The fingerprint of a stone of `color` on cell `tile`.
pub open spec fn color_tile_value(color: int, tile: int) -> u128 {
    table_draws()[color * (GO_MAX_AREA as int) + tile]
}

/// The fingerprint of `color` being the player to move.
pub open spec fn color_turn_value(color: int) -> u128 {
    table_draws()[2 * (GO_MAX_AREA as int) + color]
}

/// The fingerprint of the game phase with marker `phase`.
pub open spec fn pass_state_value(phase: int) -> u128 {
    table_draws()[2 * (GO_MAX_AREA as int) + 2 + phase]
}

/// A 128-bit position fingerprint.
#[derive(Debug, Clone, Copy, PartialEq, Eq, Structural, PartialOrd, Ord, Hash)]
pub struct Zobrist {
    pub v: u128,
}

impl Default for Zobrist {
    fn default() -> (r: Zobrist)
        ensures
            r.v == 0,
    {
        Zobrist { v: 0 }
    }
}

impl Zobrist {
    /// The fingerprint of a stone of `color` on `tile`.
    pub fn for_color_tile(data: &HashData, color: Player, tile: FlatTile) -> (r: Zobrist)
        ensures
            r.v == color_tile_value(color.index_spec() as int, tile.index_spec()),
    {
        proof { use_type_invariant(data); }
        let c = color.index() as usize;
        let t = tile.index() as usize;
        data.color_tile[c][t]
    }

    /// The fingerprint of `color` being the player to move.
    pub fn for_color_turn(data: &HashData, color: Player) -> (r: Zobrist)
        ensures
            r.v == color_turn_value(color.index_spec() as int),
    {
        proof { use_type_invariant(data); }
        data.color_turn[color.index() as usize]
    }

    /// The fingerprint of the phase of the game; a finished game's outcome is
    /// not part of it.
    pub fn for_pass_state(data: &HashData, state: State) -> (r: Zobrist)
        ensures
            r.v == pass_state_value(state.phase_index()),
    {
        proof { use_type_invariant(data); }
        let state_index: usize = match state {
            State::Normal => 0,
            State::Passed => 1,
            State::Done(_) => 2,
        };
        data.pass_state[state_index]
    }

    /// The bitwise XOR of two fingerprints.
    pub fn xor(self, other: Zobrist) -> (r: Zobrist)
        ensures
            r.v == self.v ^ other.v,
    {
        Zobrist { v: self.v ^ other.v }
    }

    /// XOR `other` into this fingerprint.
    pub fn xor_assign(&mut self, other: Zobrist)
        ensures
            final(self).v == old(self).v ^ other.v,
    {
        self.v = self.v ^ other.v;
    }
}

impl std::ops::BitXor for Zobrist {
    type Output = Zobrist;

    fn bitxor(self, rhs: Zobrist) -> Zobrist {
        self.xor(rhs)
    }
}

impl vstd::std_specs::ops::BitXorSpecImpl for Zobrist {
    open spec fn obeys_bitxor_spec() -> bool {
        true
    }

    open spec fn bitxor_req(self, rhs: Zobrist) -> bool {
        true
    }

    open spec fn bitxor_spec(self, rhs: Zobrist) -> Zobrist {
        Zobrist { v: self.v ^ rhs.v }
    }
}

impl std::ops::BitXorAssign for Zobrist {
    fn bitxor_assign(&mut self, rhs: Zobrist) {
        self.xor_assign(rhs);
    }
}

/// The table of random fingerprints: one per stone color and cell, one per
/// player to move, and one per game phase. Every table holds the same values.
pub struct HashData {
    color_tile: [Vec<Zobrist>; 2],
    color_turn: [Zobrist; 2],
    pass_state: [Zobrist; 3],
}

impl HashData {
    #[verifier::type_invariant]
    spec fn inv(self) -> bool {
        &&& table_draws().len() == HASH_TABLE_LEN
        &&& forall|c: int| 0 <= c < 2 ==> #[trigger] self.color_tile[c]@.len() == GO_MAX_AREA
        &&& forall|c: int, t: int|
            0 <= c < 2 && 0 <= t < GO_MAX_AREA ==> #[trigger] self.color_tile[c]@[t].v
                == color_tile_value(c, t)
        &&& forall|c: int| 0 <= c < 2 ==> #[trigger] self.color_turn[c].v == color_turn_value(c)
        &&& forall|s: int| 0 <= s < 3 ==> #[trigger] self.pass_state[s].v == pass_state_value(s)
    }

    /// The values of this table, in the order they were drawn.
    pub closed spec fn view(&self) -> Seq<u128> {
        Seq::new(
            HASH_TABLE_LEN as nat,
            |i: int|
                if i < GO_MAX_AREA {
                    self.color_tile[0]@[i].v
                } else if i < 2 * GO_MAX_AREA {
                    self.color_tile[1]@[i - GO_MAX_AREA].v
                } else if i < 2 * GO_MAX_AREA + 2 {
                    self.color_turn[i - 2 * GO_MAX_AREA].v
                } else {
                    self.pass_state[i - 2 * GO_MAX_AREA - 2].v
                },
        )
    }

    /// Builds the table from the generator with the fixed seed.
    pub fn new() -> (r: HashData)
        ensures
            r.wf(),
            r@ == table_draws(),
    {
        let draws = draw_seeded(HASH_SEED, HASH_TABLE_LEN);
        let area = GO_MAX_AREA as usize;
        let tiles_a = slice_values(&draws, 0, area);
        let tiles_b = slice_values(&draws, area, area);
        let turn = [Zobrist { v: draws[2 * area] }, Zobrist { v: draws[2 * area + 1] }];
        let pass = [
            Zobrist { v: draws[2 * area + 2] },
            Zobrist { v: draws[2 * area + 3] },
            Zobrist { v: draws[2 * area + 4] },
        ];
        let r = HashData { color_tile: [tiles_a, tiles_b], color_turn: turn, pass_state: pass };
        proof { r.lemma_view(); }
        r
    }

    /// Whether this table is one that `new` can build.
    pub closed spec fn wf(&self) -> bool {
        self.inv()
    }

    proof fn lemma_view(&self)
        requires
            self.inv(),
        ensures
            self.wf(),
            self@ == table_draws(),
    {
        assert(self@ =~= table_draws());
    }
}

/// Two tables hold the same values: building the table twice gives the same
/// fingerprints, bit for bit.
pub proof fn lemma_tables_identical(a: &HashData, b: &HashData)
    requires
        a.wf(),
        b.wf(),
    ensures
        a@ == b@,
{
    a.lemma_view();
    b.lemma_view();
}

/// The result of XOR-ing the fingerprints of `features`, in order, into `h`.
pub open spec fn apply_features(h: Zobrist, features: Seq<Zobrist>) -> Zobrist
    decreases features.len(),
{
    if features.len() == 0 {
        h
    } else {
        Zobrist { v: apply_features(h, features.drop_last()).v ^ features.last().v }
    }
}

/// XOR-ing the same fingerprint in twice leaves a running fingerprint as it was.
pub proof fn lemma_xor_twice(h: Zobrist, f: Zobrist)
    ensures
        (h.v ^ f.v) ^ f.v == h.v,
{
    let a = h.v;
    let b = f.v;
    assert((a ^ b) ^ b == a) by (bit_vector);
}

proof fn lemma_apply_first(h: Zobrist, features: Seq<Zobrist>)
    requires
        features.len() > 0,
    ensures
        apply_features(h, features) == apply_features(Zobrist { v: h.v ^ features[0].v }, features.drop_first()),
    decreases features.len(),
{
    if features.len() > 1 {
        lemma_apply_first(h, features.drop_last());
        assert(features.drop_last().drop_first() =~= features.drop_first().drop_last());
        assert(features.drop_last()[0] == features[0]);
        assert(features.drop_first().last() == features.last());
        assert(apply_features(Zobrist { v: h.v ^ features[0].v }, features.drop_first())
            == Zobrist { v: apply_features(Zobrist { v: h.v ^ features[0].v }, features.drop_first().drop_last()).v ^ features.last().v });
    } else {
        assert(features.drop_last() =~= Seq::<Zobrist>::empty());
        assert(features.drop_first() =~= Seq::<Zobrist>::empty());
        assert(apply_features(h, features.drop_last()) == h);
        assert(features.last() == features[0]);
    }
}

/// Playing features in and then taking them out again in reverse order
/// returns a running fingerprint to where it started.
pub proof fn lemma_undo_restores(h: Zobrist, features: Seq<Zobrist>)
    ensures
        apply_features(apply_features(h, features), features.reverse()) == h,
    decreases features.len(),
{
    if features.len() > 0 {
        let a = features[0];
        let rest = features.drop_first();
        let h1 = Zobrist { v: h.v ^ a.v };
        lemma_apply_first(h, features);
        assert(features.reverse() =~= rest.reverse().push(a));
        assert(features.reverse().drop_last() =~= rest.reverse());
        lemma_undo_restores(h1, rest);
        lemma_xor_twice(h, a);
    } else {
        assert(features.reverse() =~= Seq::<Zobrist>::empty());
    }
}

/// The fingerprints for `draws[start..start + len]`.
fn slice_values(draws: &Vec<u128>, start: usize, len: usize) -> (r: Vec<Zobrist>)
    requires
        start + len <= draws@.len(),
    ensures
        r@.len() == len,
        forall|i: int| 0 <= i < len ==> #[trigger] r@[i].v == draws@[start + i],
{
    let mut r: Vec<Zobrist> = Vec::new();
    let mut i: usize = 0;
    let total = draws.len();
    while i < len
        invariant
            total == draws@.len(),
            start + len <= draws@.len(),
            i <= len,
            r@.len() == i,
            forall|j: int| 0 <= j < i ==> #[trigger] r@[j].v == draws@[start + j],
        decreases len - i,
    {
        r.push(Zobrist { v: draws[start + i] });
        i = i + 1;
    }
    r
}

} // verus!
