use board_game::board::Player;
use board_game::uai::{go_time, time_to_use, GoTimeSettings};

#[test]
fn clock_uses_thirtieth_of_remaining() {
    let settings = GoTimeSettings::Clock { w_time: 3000, b_time: 6000, w_inc: 0, b_inc: 0 };
    assert_eq!(time_to_use(settings, Player::A), 100);
    assert_eq!(time_to_use(settings, Player::B), 200);
}

#[test]
fn fixed_move_uses_ninety_five_percent() {
    assert_eq!(time_to_use(GoTimeSettings::Move(1000), Player::A), 950);
    assert_eq!(time_to_use(GoTimeSettings::Move(u32::MAX), Player::B), 4080218930);
}

#[test]
fn go_without_board_searches_nothing() {
    assert_eq!(go_time(None, GoTimeSettings::Move(1000)), None);
    assert_eq!(go_time(Some(Player::A), GoTimeSettings::Move(1000)), Some(950));
}
