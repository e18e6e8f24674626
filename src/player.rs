//! The two players and their numeric identities at the rules-oracle boundary.

use vstd::prelude::*;

verus! {

/// One of the two players.
#[derive(Clone, Copy, PartialEq, Eq, Debug, Structural)]
pub enum Player {
    PlayerOne,
    PlayerTwo,
}

/// The numeric identity of a player: 1 for the first, 2 for the second.
pub open spec fn player_code(p: Player) -> u8 {
    match p {
        Player::PlayerOne => 1u8,
        Player::PlayerTwo => 2u8,
    }
}

/// The player whose identity is `value`, if any.
pub open spec fn player_of_code(value: u8) -> Option<Player> {
    if value == 1 {
        Some(Player::PlayerOne)
    } else if value == 2 {
        Some(Player::PlayerTwo)
    } else {
        None
    }
}

impl Player {
    pub fn from_u8(value: u8) -> (r: Option<Player>)
        ensures
            r == player_of_code(value),
    {
        match value {
            1 => Some(Player::PlayerOne),
            2 => Some(Player::PlayerTwo),
            _ => None,
        }
    }

    pub fn to_u8(self) -> (r: u8)
        ensures
            r == player_code(self),
    {
        match self {
            Player::PlayerOne => 1,
            Player::PlayerTwo => 2,
        }
    }
}

/// An optional player as the oracle writes it: 0 for nobody.
pub open spec fn cell_code(c: Option<Player>) -> u8 {
    match c {
        Some(p) => player_code(p),
        None => 0u8,
    }
}

pub fn cell_to_u8(c: Option<Player>) -> (r: u8)
    ensures
        r == cell_code(c),
{
    match c {
        Some(p) => p.to_u8(),
        None => 0,
    }
}

} // verus!
