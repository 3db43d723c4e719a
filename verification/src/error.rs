//! The ways in which an instruction is rejected.

use vstd::prelude::*;

verus! {

/// Why an instruction was rejected. A rejected instruction changes nothing.
#[derive(Clone, Copy, Debug, PartialEq, Eq, Structural)]
pub enum RockPaperScissorsError {
    AccountIsNotAPlayerInTheGame,
    InvalidGameState,
    InvalidPlayer,
    InvalidHash,
    BothPlayersCantBeTheSame,
    GameIsNotStale,
    PlayerAlreadyRevealed,
    NumericOverflow,
}

impl RockPaperScissorsError {
    /// The text shown to the caller for each error.
    pub open spec fn spec_message(self) -> Seq<char> {
        match self {
            RockPaperScissorsError::AccountIsNotAPlayerInTheGame => "Account is not a player in the game"@,
            RockPaperScissorsError::InvalidGameState => "Invalid game state"@,
            RockPaperScissorsError::InvalidPlayer => "Invalid player"@,
            RockPaperScissorsError::InvalidHash => "Invalid hash"@,
            RockPaperScissorsError::BothPlayersCantBeTheSame => "Both players can't be the same"@,
            RockPaperScissorsError::GameIsNotStale => "Game is not stale"@,
            RockPaperScissorsError::PlayerAlreadyRevealed => "Player already revealed"@,
            RockPaperScissorsError::NumericOverflow => "Numeric overflow"@,
        }
    }

    /// The text shown to the caller.
    pub fn message(&self) -> (text: String)
        ensures
            text@ == self.spec_message(),
    {
        match self {
            RockPaperScissorsError::AccountIsNotAPlayerInTheGame => "Account is not a player in the game".to_owned(),
            RockPaperScissorsError::InvalidGameState => "Invalid game state".to_owned(),
            RockPaperScissorsError::InvalidPlayer => "Invalid player".to_owned(),
            RockPaperScissorsError::InvalidHash => "Invalid hash".to_owned(),
            RockPaperScissorsError::BothPlayersCantBeTheSame => "Both players can't be the same".to_owned(),
            RockPaperScissorsError::GameIsNotStale => "Game is not stale".to_owned(),
            RockPaperScissorsError::PlayerAlreadyRevealed => "Player already revealed".to_owned(),
            RockPaperScissorsError::NumericOverflow => "Numeric overflow".to_owned(),
        }
    }
}

} // verus!
