//! Unwinding a stale game: anybody may ask for it.

use vstd::prelude::*;
use crate::error::RockPaperScissorsError;
use crate::instructions::game::funds::{
    close_escrow, escrow_close, escrow_transfer, transfer_from_escrow, Payout,
};
use crate::pubkey::Pubkey;
use crate::state::game::Game;
use crate::state::settings::Settings;

verus! {

/// What unwinding a game reads.
#[derive(Clone, Debug, PartialEq, Eq)]
pub struct UnwindGame {
    pub game: Game,
    /// Address of the game account, the authority over both escrows.
    pub game_key: Pubkey,
    pub settings: Settings,
    /// The first player's own account of the staked asset.
    pub first_player_token_account: Pubkey,
    /// The second player's own account of the staked asset.
    pub second_player_token_account: Pubkey,
    /// Decimal places of the staked asset.
    pub mint_decimals: u8,
}

impl UnwindGame {
    /// Each escrow goes back to its player and is closed towards that player;
    /// the game account is closed towards the first player.
    pub open spec fn refunds(self) -> Payout {
        let first_escrow = self.game.first_player_escrow;
        let second_escrow = self.game.second_player_escrow->0;
        Payout {
            first_transfer: escrow_transfer(
                self.game,
                self.game_key,
                self.mint_decimals,
                first_escrow,
                self.first_player_token_account,
            ),
            second_transfer: escrow_transfer(
                self.game,
                self.game_key,
                self.mint_decimals,
                second_escrow,
                self.second_player_token_account,
            ),
            first_close: escrow_close(
                self.game,
                self.game_key,
                first_escrow,
                self.game.first_player,
            ),
            second_close: escrow_close(
                self.game,
                self.game_key,
                second_escrow,
                self.game.second_player->0,
            ),
            close_game_to: Some(self.game.first_player),
        }
    }

    /// What unwinding at `now` comes to: the refunds, or the reason why the
    /// game cannot be unwound. Only a game in play that is stale can.
    pub open spec fn unwound(self, now: i64) -> Result<Payout, RockPaperScissorsError> {
        if !self.game.in_play() {
            Err(RockPaperScissorsError::InvalidGameState)
        } else if !self.game.stale(now as int, self.settings.time_for_stale as int) {
            Err(RockPaperScissorsError::GameIsNotStale)
        } else {
            Ok(self.refunds())
        }
    }
}

/// Unwinds the game at `now`. On success the refunds are to be made, and the
/// game account goes with them.
pub fn processor(ctx: &UnwindGame, now: i64) -> (result: Result<Payout, RockPaperScissorsError>)
    ensures
        result == ctx.unwound(now),
{
    let (second_player, second_escrow) = match ctx.game.second_side() {
        Some(side) => side,
        None => {
            return Err(RockPaperScissorsError::InvalidGameState);
        },
    };
    if !ctx.game.is_stale(now, ctx.settings.time_for_stale) {
        return Err(RockPaperScissorsError::GameIsNotStale);
    }
    let first_player = ctx.game.first_player;
    let first_escrow = ctx.game.first_player_escrow;
    Ok(
        Payout {
            first_transfer: transfer_from_escrow(
                &ctx.game,
                &ctx.game_key,
                ctx.mint_decimals,
                &first_escrow,
                &ctx.first_player_token_account,
            ),
            second_transfer: transfer_from_escrow(
                &ctx.game,
                &ctx.game_key,
                ctx.mint_decimals,
                &second_escrow,
                &ctx.second_player_token_account,
            ),
            first_close: close_escrow(&ctx.game, &ctx.game_key, &first_escrow, &first_player),
            second_close: close_escrow(&ctx.game, &ctx.game_key, &second_escrow, &second_player),
            close_game_to: Some(first_player),
        },
    )
}

} // verus!
