//! The two players.

use vstd::prelude::*;

verus! {

/// One of the two players of a game.
#[derive(Copy, Clone, PartialEq, Eq, Structural, Hash, Debug)]
pub enum Player {
    P1,
    P2,
}

impl Player {
    /// The other player.
    pub open spec fn opponent(self) -> Player {
        match self {
            Player::P1 => Player::P2,
            Player::P2 => Player::P1,
        }
    }

    /// The position of this player's data wherever there is one entry per player.
    pub open spec fn index(self) -> int {
        match self {
            Player::P1 => 0,
            Player::P2 => 1,
        }
    }

    /// Returns the player whose turn comes after this player's.
    pub fn next(&self) -> (other: Player)
        ensures
            other == self.opponent(),
    {
        match *self {
            Player::P1 => Player::P2,
            Player::P2 => Player::P1,
        }
    }
}

/// There are exactly two players, and `next` swaps them: going on twice comes back to the
/// player one started from, and never stays where it was.
pub proof fn lemma_players_alternate(p: Player)
    ensures
        p.opponent() != p,
        p.opponent().opponent() == p,
        p.opponent().index() == 1 - p.index(),
{
}

} // verus!
