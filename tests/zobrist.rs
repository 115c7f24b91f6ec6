use board_game::board::{Outcome, Player};
use board_game::go::{FlatTile, State, GO_MAX_AREA};
use board_game::zobrist::{HashData, Zobrist};

#[test]
fn xor_twice_restores() {
    let data = HashData::new();
    let start = Zobrist { v: 0x1234_5678_9abc_def0_1122_3344_5566_7788 };
    let f = Zobrist::for_color_tile(&data, Player::A, FlatTile::new(17));
    let mut h = start;
    h.xor_assign(f);
    assert_ne!(h, start);
    h.xor_assign(f);
    assert_eq!(h, start);
    assert_eq!(start.xor(f).xor(f), start);
}

#[test]
fn moves_then_reversal_restore() {
    let data = HashData::new();
    let start = Zobrist::default();
    let features = vec![
        Zobrist::for_color_tile(&data, Player::A, FlatTile::new(0)),
        Zobrist::for_color_turn(&data, Player::A),
        Zobrist::for_color_tile(&data, Player::B, FlatTile::new(360)),
        Zobrist::for_color_turn(&data, Player::B),
        Zobrist::for_pass_state(&data, State::Passed),
    ];
    let mut h = start;
    for f in &features {
        h.xor_assign(*f);
    }
    assert_ne!(h, start);
    for f in features.iter().rev() {
        h.xor_assign(*f);
    }
    assert_eq!(h, start);
}

#[test]
fn tables_are_reproducible() {
    let a = HashData::new();
    let b = HashData::new();
    for color in [Player::A, Player::B] {
        for i in 0..GO_MAX_AREA {
            let t = FlatTile::new(i);
            assert_eq!(Zobrist::for_color_tile(&a, color, t), Zobrist::for_color_tile(&b, color, t));
        }
        assert_eq!(Zobrist::for_color_turn(&a, color), Zobrist::for_color_turn(&b, color));
    }
    for s in [State::Normal, State::Passed, State::Done(Outcome::Draw)] {
        assert_eq!(Zobrist::for_pass_state(&a, s), Zobrist::for_pass_state(&b, s));
    }
}

#[test]
fn fingerprints_are_distinct_and_nonzero() {
    let data = HashData::new();
    let mut all = Vec::new();
    for color in [Player::A, Player::B] {
        for i in 0..GO_MAX_AREA {
            all.push(Zobrist::for_color_tile(&data, color, FlatTile::new(i)));
        }
        all.push(Zobrist::for_color_turn(&data, color));
    }
    all.push(Zobrist::for_pass_state(&data, State::Normal));
    all.push(Zobrist::for_pass_state(&data, State::Passed));
    all.push(Zobrist::for_pass_state(&data, State::Done(Outcome::Draw)));
    assert_eq!(all.len(), 727);
    for z in &all {
        assert_ne!(z.v, 0);
    }
    all.sort();
    all.dedup();
    assert_eq!(all.len(), 727);
}

#[test]
fn done_phase_ignores_outcome() {
    let data = HashData::new();
    let won_a = Zobrist::for_pass_state(&data, State::Done(Outcome::WonBy(Player::A)));
    let won_b = Zobrist::for_pass_state(&data, State::Done(Outcome::WonBy(Player::B)));
    let draw = Zobrist::for_pass_state(&data, State::Done(Outcome::Draw));
    assert_eq!(won_a, won_b);
    assert_eq!(won_a, draw);
    assert_ne!(draw, Zobrist::for_pass_state(&data, State::Normal));
}

#[test]
fn xor_combines_bits() {
    let a = Zobrist { v: 0b1100 };
    let b = Zobrist { v: 0b1010 };
    assert_eq!(a.xor(b).v, 0b0110);
    assert_eq!(Zobrist::default().v, 0);
}

#[test]
fn xor_operators_match_methods() {
    let a = Zobrist { v: 0xf0f0 };
    let b = Zobrist { v: 0x0ff0 };
    assert_eq!((a ^ b).v, 0xff00);
    let mut c = a;
    c ^= b;
    assert_eq!(c, a ^ b);
    c ^= b;
    assert_eq!(c, a);
}
