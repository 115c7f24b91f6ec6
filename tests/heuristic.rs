use board_game::board::{Board, Outcome, Player};
use board_game::heuristic::{Heuristic, STTTTileHeuristic, SolverHeuristic, SolverValue};
use board_game::sttt::{Coord as TileCoord, STTTBoard};

fn board_with(
    tiles: &[(u8, Player)],
    macrs: &[(u8, Player)],
    next: Player,
    outcome: Option<Outcome>,
) -> STTTBoard {
    let mut t = vec![None; 81];
    for (o, p) in tiles {
        t[*o as usize] = Some(*p);
    }
    let mut m = vec![None; 9];
    for (om, p) in macrs {
        m[*om as usize] = Some(*p);
    }
    STTTBoard::new(t, m, next, outcome).unwrap()
}

#[test]
fn empty_board_is_worth_zero() {
    let h = STTTTileHeuristic::default();
    assert_eq!(h.value(&STTTBoard::empty(), 0), 0);
}

#[test]
fn tile_weights_by_position() {
    let h = STTTTileHeuristic::default();
    assert_eq!(h.oo_factor(1), 1);
    assert_eq!(h.oo_factor(0), 3);
    assert_eq!(h.oo_factor(8), 3);
    assert_eq!(h.oo_factor(4), 4);
    let center = board_with(&[(40, Player::A)], &[], Player::B, None);
    assert_eq!(h.value(&center, 1), -16);
    let center_a = board_with(&[(40, Player::A)], &[], Player::A, None);
    assert_eq!(h.value(&center_a, 1), 16);
    let side = board_with(&[(1, Player::B)], &[], Player::B, None);
    assert_eq!(h.value(&side, 1), 3);
}

#[test]
fn won_macro_adds_bonus() {
    let h = STTTTileHeuristic::default();
    let b = board_with(&[(36, Player::A), (40, Player::A), (44, Player::A)], &[(4, Player::A)], Player::A, None);
    assert_eq!(h.value(&b, 3), 12 + 16 + 12 + 4000);
}

#[test]
fn value_update_plain_move() {
    let h = STTTTileHeuristic::default();
    let parent = STTTBoard::empty();
    let v = h.value(&parent, 0);
    let mv = TileCoord::from_oo(4, 4);
    let child = board_with(&[(40, Player::A)], &[], Player::B, None);
    let updated = h.value_update(&parent, v, 0, mv, &child);
    assert_eq!(updated, -16);
    assert_eq!(updated, h.value(&child, 1));
}

#[test]
fn value_update_move_that_wins_macro() {
    let h = STTTTileHeuristic::default();
    let parent = board_with(&[(0, Player::A), (1, Player::A), (76, Player::B)], &[], Player::A, None);
    let v = h.value(&parent, 4);
    assert_eq!(v, 0);
    let mv = TileCoord::from_oo(0, 2);
    let child = board_with(
        &[(0, Player::A), (1, Player::A), (2, Player::A), (76, Player::B)],
        &[(0, Player::A)],
        Player::B,
        None,
    );
    let updated = h.value_update(&parent, v, 4, mv, &child);
    assert_eq!(updated, -3009);
    assert_eq!(updated, h.value(&child, 5));
}

#[test]
fn value_update_move_that_ends_game() {
    let h = STTTTileHeuristic::default();
    let parent = board_with(&[(0, Player::A), (1, Player::A)], &[(4, Player::A), (8, Player::A)], Player::A, None);
    let v = h.value(&parent, 6);
    let mv = TileCoord::from_oo(0, 2);
    let child = board_with(
        &[(0, Player::A), (1, Player::A), (2, Player::A)],
        &[(0, Player::A), (4, Player::A), (8, Player::A)],
        Player::B,
        Some(Outcome::WonBy(Player::A)),
    );
    let updated = h.value_update(&parent, v, 6, mv, &child);
    assert_eq!(updated, h.value(&child, 7));
    assert_eq!(updated, 7 - i32::MAX);
}

#[test]
fn finished_board_uses_solver_value() {
    let h = STTTTileHeuristic::default();
    let won = board_with(&[(40, Player::B)], &[], Player::A, Some(Outcome::WonBy(Player::A)));
    assert_eq!(h.value(&won, 3), i32::MAX - 3);
    let drawn = board_with(&[(40, Player::B)], &[], Player::A, Some(Outcome::Draw));
    assert_eq!(h.value(&drawn, 3), 0);
    assert_eq!(SolverHeuristic.value(&won, 3), SolverValue::WinIn(3));
    assert_eq!(SolverHeuristic.value(&STTTBoard::empty(), 3), SolverValue::Unknown);
    assert_eq!(SolverValue::LossIn(2).to_i32(), 2 - i32::MAX);
}

#[test]
fn value_is_deterministic() {
    let h = STTTTileHeuristic::default();
    let b = board_with(&[(3, Player::A), (50, Player::B)], &[(2, Player::B)], Player::B, None);
    assert_eq!(h.value(&b, 2), h.value(&b, 2));
    assert_eq!(h.value(&b, 2), h.value(&b.clone(), 2));
}

#[test]
fn merge_prefers_larger_and_new_on_tie() {
    type H = STTTTileHeuristic;
    assert_eq!(<H as Heuristic<STTTBoard, TileCoord>>::merge(5, 5), (5, true));
    assert_eq!(<H as Heuristic<STTTBoard, TileCoord>>::merge(5, 3), (5, false));
    assert_eq!(<H as Heuristic<STTTBoard, TileCoord>>::merge(3, 5), (5, true));
    assert_eq!(<H as Heuristic<STTTBoard, TileCoord>>::merge(-7, -2), (-2, true));
}

#[test]
fn board_new_checks_lengths() {
    assert!(STTTBoard::new(vec![None; 80], vec![None; 9], Player::A, None).is_none());
    assert!(STTTBoard::new(vec![None; 81], vec![None; 10], Player::A, None).is_none());
    let c = TileCoord::from_oo(7, 3);
    assert_eq!((c.o(), c.om(), c.os()), (66, 7, 3));
}

#[test]
fn board_reports_turn_and_outcome() {
    let b = board_with(&[(10, Player::A)], &[], Player::B, None);
    assert_eq!(b.next_player(), Player::B);
    assert!(!b.is_done());
    assert_eq!(b.outcome(), None);
    assert_eq!(b.tile(TileCoord::from_o(10)), Some(Player::A));
    assert_eq!(b.tile(TileCoord::from_o(11)), None);
    let done = board_with(&[], &[(3, Player::B)], Player::A, Some(Outcome::WonBy(Player::B)));
    assert!(done.is_done());
    assert_eq!(done.outcome(), Some(Outcome::WonBy(Player::B)));
    assert_eq!(done.macr(3), Some(Player::B));
    assert_eq!(SolverHeuristic.value(&done, 9), SolverValue::LossIn(9));
}

#[test]
fn player_index_sign_and_other() {
    assert_eq!(Player::A.index(), 0);
    assert_eq!(Player::B.index(), 1);
    assert_eq!(Player::A.other(), Player::B);
    assert_eq!(Player::A.sign(Player::A), 1);
    assert_eq!(Player::B.sign(Player::A), -1);
}
