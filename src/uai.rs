//! The decisions of the engine control loop that do not touch I/O.
use vstd::prelude::*;
use crate::board::Player;

verus! {

/// The time settings of a `go` command, in milliseconds.
#[derive(Debug, Clone, Copy, PartialEq, Eq, Structural, Hash)]
pub enum GoTimeSettings {
    /// A fixed time for this move.
    Move(u32),
    /// The time left on each player's clock, and each player's increment.
    Clock { w_time: u32, b_time: u32, w_inc: u32, b_inc: u32 },
}

/// The time to spend on a move: 95% of a fixed move time, or a thirtieth of
/// the clock of the player to move.
pub open spec fn time_to_use_spec(settings: GoTimeSettings, next: Player) -> int {
    match settings {
        GoTimeSettings::Move(time) => time * 95 / 100,
        GoTimeSettings::Clock { w_time, b_time, .. } => match next {
            Player::A => (w_time / 30) as int,
            Player::B => (b_time / 30) as int,
        },
    }
}

/// The time to spend on a move, in milliseconds, for `next` to move.
pub fn time_to_use(settings: GoTimeSettings, next: Player) -> (r: u32)
    ensures
        r == time_to_use_spec(settings, next),
{
    match settings {
        GoTimeSettings::Move(time) => {
            let scaled: u64 = time as u64 * 95 / 100;
            scaled as u32
        },
        GoTimeSettings::Clock { w_time, b_time, .. } => {
            let time_left = match next {
                Player::A => w_time,
                Player::B => b_time,
            };
            time_left / 30
        },
    }
}

/// What a `go` command leads to: the time to search, with the player to move
/// of the current position, or `None` when no position has been set up yet,
/// and nothing is searched.
pub fn go_time(current: Option<Player>, settings: GoTimeSettings) -> (r: Option<u32>)
    ensures
        current.is_none() ==> r.is_none(),
        current.is_some() ==> r == Some(time_to_use_spec(settings, current.unwrap()) as u32),
{
    match current {
        None => None,
        Some(next) => Some(time_to_use(settings, next)),
    }
}

} // verus!
