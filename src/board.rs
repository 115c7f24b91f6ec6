use vstd::prelude::*;

verus! {

/// One of the two players of a turn-based game.
#[derive(Debug, Clone, Copy, PartialEq, Eq, Structural, Hash)]
pub enum Player {
    A,
    B,
}

/// The result of a finished game.
#[derive(Debug, Clone, Copy, PartialEq, Eq, Structural, Hash)]
pub enum Outcome {
    WonBy(Player),
    Draw,
}

/// The result of a finished game, seen from one player's side.
#[derive(Debug, Clone, Copy, PartialEq, Eq, Structural, Hash)]
pub enum OutcomeWDL {
    Win,
    Draw,
    Loss,
}

impl Player {
    pub open spec fn index_spec(self) -> u8 {
        match self {
            Player::A => 0,
            Player::B => 1,
        }
    }

    pub open spec fn other_spec(self) -> Player {
        match self {
            Player::A => Player::B,
            Player::B => Player::A,
        }
    }

    pub open spec fn sign_spec(self, pov: Player) -> int {
        if self == pov {
            1
        } else {
            -1
        }
    }

    /// `0` for `A`, `1` for `B`.
    pub fn index(self) -> (r: u8)
        ensures
            r == self.index_spec(),
    {
        match self {
            Player::A => 0,
            Player::B => 1,
        }
    }

    /// The opponent of this player.
    pub fn other(self) -> (r: Player)
        ensures
            r == self.other_spec(),
    {
        match self {
            Player::A => Player::B,
            Player::B => Player::A,
        }
    }

    /// `1` when this player is `pov`, `-1` otherwise.
    pub fn sign(self, pov: Player) -> (r: i32)
        ensures
            r == self.sign_spec(pov),
    {
        if self == pov {
            1
        } else {
            -1
        }
    }
}

impl Outcome {
    pub open spec fn pov_spec(self, pov: Player) -> OutcomeWDL {
        match self {
            Outcome::WonBy(p) => if p == pov {
                OutcomeWDL::Win
            } else {
                OutcomeWDL::Loss
            },
            Outcome::Draw => OutcomeWDL::Draw,
        }
    }

    /// This outcome from the point of view of `pov`.
    pub fn pov(self, pov: Player) -> (r: OutcomeWDL)
        ensures
            r == self.pov_spec(pov),
    {
        match self {
            Outcome::WonBy(p) => if p == pov {
                OutcomeWDL::Win
            } else {
                OutcomeWDL::Loss
            },
            Outcome::Draw => OutcomeWDL::Draw,
        }
    }
}

/// What every game position offers: whose turn it is, and how the game
/// ended, once it has.
pub trait Board {
    /// The player to move.
    spec fn next_player_spec(&self) -> Player;

    /// How the game ended, or `None` while it goes on.
    spec fn outcome_spec(&self) -> Option<Outcome>;

    /// The player to move.
    fn next_player(&self) -> (r: Player)
        ensures
            r == self.next_player_spec();

    /// How the game ended, or `None` while it goes on.
    fn outcome(&self) -> (r: Option<Outcome>)
        ensures
            r == self.outcome_spec();

    /// Whether the game has ended.
    fn is_done(&self) -> (r: bool)
        ensures
            r == self.outcome_spec().is_some();
}

} // verus!
