//! Cancelling a game that nobody has joined: only its first player may.

use vstd::prelude::*;
use crate::error::RockPaperScissorsError;
use crate::instructions::game::funds::{
    close_escrow, escrow_close, escrow_transfer, transfer_from_escrow, Refund,
};
use crate::pubkey::Pubkey;
use crate::state::game::{Game, GameState};

verus! {

/// What cancelling a game reads.
#[derive(Clone, Debug, PartialEq, Eq)]
pub struct CancelGame {
    pub game: Game,
    /// Address of the game account, the authority over the escrow.
    pub game_key: Pubkey,
    /// Who asks for the cancelling.
    pub player: Pubkey,
    /// That player's own account of the staked asset.
    pub player_token_account: Pubkey,
    /// Decimal places of the staked asset.
    pub mint_decimals: u8,
}

impl CancelGame {
    /// The stake goes back out of the first player's escrow; the escrow and
    /// the game account are closed towards the player.
    pub open spec fn refund(self) -> Refund {
        Refund {
            transfer: escrow_transfer(
                self.game,
                self.game_key,
                self.mint_decimals,
                self.game.first_player_escrow,
                self.player_token_account,
            ),
            close: escrow_close(
                self.game,
                self.game_key,
                self.game.first_player_escrow,
                self.player,
            ),
            close_game_to: self.player,
        }
    }

    /// What cancelling comes to: the refund, or the reason why the game
    /// cannot be cancelled. Only a game that nobody has joined can, and only
    /// by its first player.
    pub open spec fn cancelled(self) -> Result<Refund, RockPaperScissorsError> {
        if self.game.state != GameState::Created {
            Err(RockPaperScissorsError::InvalidGameState)
        } else if self.player != self.game.first_player {
            Err(RockPaperScissorsError::InvalidPlayer)
        } else {
            Ok(self.refund())
        }
    }
}

/// Cancels the game. On success the refund is to be made, and the game
/// account goes with it.
pub fn processor(ctx: &CancelGame) -> (result: Result<Refund, RockPaperScissorsError>)
    ensures
        result == ctx.cancelled(),
{
    if !ctx.game.is_created() {
        return Err(RockPaperScissorsError::InvalidGameState);
    }
    if ctx.player != ctx.game.first_player {
        return Err(RockPaperScissorsError::InvalidPlayer);
    }
    let escrow = ctx.game.first_player_escrow;
    Ok(
        Refund {
            transfer: transfer_from_escrow(
                &ctx.game,
                &ctx.game_key,
                ctx.mint_decimals,
                &escrow,
                &ctx.player_token_account,
            ),
            close: close_escrow(&ctx.game, &ctx.game_key, &escrow, &ctx.player),
            close_game_to: ctx.player,
        },
    )
}

} // verus!
