//! Settling a started game: anybody may ask for it.

use vstd::prelude::*;
use crate::error::RockPaperScissorsError;
use crate::instructions::game::funds::{
    close_escrow, escrow_close, escrow_transfer, transfer_from_escrow, Payout,
};
use crate::pubkey::Pubkey;
use crate::state::game::{Game, Player};
use crate::state::settings::Settings;

verus! {

/// What settling a game reads and changes.
#[derive(Clone, Debug, PartialEq, Eq)]
pub struct SettleGame {
    pub game: Game,
    /// Address of the game account, the authority over both escrows.
    pub game_key: Pubkey,
    pub settings: Settings,
    /// The first player's own account of the staked asset.
    pub first_player_token_account: Pubkey,
    /// The second player's own account of the staked asset.
    pub second_player_token_account: Pubkey,
    /// Decimal places of the staked asset.
    pub mint_decimals: u8,
}

impl SettleGame {
    /// What the winner receives: twice the stake. A draw has no winner and
    /// the amount is 0.
    pub open spec fn amount_won(self, winner: Option<Player>) -> int {
        if winner is Some {
            2 * self.game.amount_to_match
        } else {
            0
        }
    }

    /// The transfers and closings for `winner`. In a draw each escrow goes
    /// back to its player. With a winner both escrows go to the winner's
    /// account, the winner's own escrow first. Each escrow is then closed
    /// towards the player who filled it.
    pub open spec fn payout(self, winner: Option<Player>) -> Payout {
        let first_escrow = self.game.first_player_escrow;
        let second_escrow = self.game.second_player_escrow->0;
        let first_account = self.first_player_token_account;
        let second_account = self.second_player_token_account;
        let transfer = |from: Pubkey, to: Pubkey|
            escrow_transfer(self.game, self.game_key, self.mint_decimals, from, to);
        let (first_transfer, second_transfer) = match winner {
            None => (transfer(first_escrow, first_account), transfer(second_escrow, second_account)),
            Some(Player::First) => (
                transfer(first_escrow, first_account),
                transfer(second_escrow, first_account),
            ),
            Some(Player::Second) => (
                transfer(second_escrow, second_account),
                transfer(first_escrow, second_account),
            ),
        };
        Payout {
            first_transfer,
            second_transfer,
            first_close: escrow_close(
                self.game,
                self.game_key,
                first_escrow,
                self.game.first_player,
            ),
            second_close: escrow_close(
                self.game,
                self.game_key,
                second_escrow,
                self.game.second_player->0,
            ),
            close_game_to: None,
        }
    }

    /// What settling at `now` comes to: the settled game and the payout, or
    /// the reason why the game cannot be settled.
    pub open spec fn settled(self, now: i64) -> Result<(Game, Payout), RockPaperScissorsError> {
        if !self.game.in_play() {
            Err(RockPaperScissorsError::InvalidGameState)
        } else {
            match self.game.winner(now as int, self.settings.time_for_penalization as int) {
                Err(error) => Err(error),
                Ok(winner) => if self.amount_won(winner) > u64::MAX {
                    Err(RockPaperScissorsError::NumericOverflow)
                } else {
                    Ok(
                        (
                            self.game.claimed(winner, self.amount_won(winner) as u64, now),
                            self.payout(winner),
                        ),
                    )
                },
            }
        }
    }
}

/// Settles the game at `now`. On success the game is over and the payout is
/// to be made; on failure nothing has changed.
pub fn processor(ctx: &mut SettleGame, now: i64) -> (result: Result<Payout, RockPaperScissorsError>)
    ensures
        match result {
            Ok(payout) => old(ctx).settled(now) == Ok::<(Game, Payout), RockPaperScissorsError>(
                (final(ctx).game, payout),
            ) && *final(ctx) == (SettleGame { game: final(ctx).game, ..*old(ctx) }),
            Err(error) => old(ctx).settled(now) == Err::<(Game, Payout), RockPaperScissorsError>(
                error,
            ) && *final(ctx) == *old(ctx),
        },
        old(ctx).game.wf() ==> final(ctx).game.wf(),
{
    let (second_player, second_escrow) = match ctx.game.second_side() {
        Some(side) => side,
        None => {
            return Err(RockPaperScissorsError::InvalidGameState);
        },
    };
    let first_player = ctx.game.first_player;
    let first_escrow = ctx.game.first_player_escrow;

    let winner = match ctx.game.get_winner(now, &ctx.settings) {
        Ok(winner) => winner,
        Err(error) => {
            return Err(error);
        },
    };
    let amount_won: u64 = match winner {
        Some(_) => match ctx.game.amount_to_match.checked_mul(2) {
            Some(value) => value,
            None => {
                return Err(RockPaperScissorsError::NumericOverflow);
            },
        },
        None => 0,
    };

    let (first_transfer, second_transfer) = match winner {
        None => (
            transfer_from_escrow(
                &ctx.game,
                &ctx.game_key,
                ctx.mint_decimals,
                &first_escrow,
                &ctx.first_player_token_account,
            ),
            transfer_from_escrow(
                &ctx.game,
                &ctx.game_key,
                ctx.mint_decimals,
                &second_escrow,
                &ctx.second_player_token_account,
            ),
        ),
        Some(Player::First) => (
            transfer_from_escrow(
                &ctx.game,
                &ctx.game_key,
                ctx.mint_decimals,
                &first_escrow,
                &ctx.first_player_token_account,
            ),
            transfer_from_escrow(
                &ctx.game,
                &ctx.game_key,
                ctx.mint_decimals,
                &second_escrow,
                &ctx.first_player_token_account,
            ),
        ),
        Some(Player::Second) => (
            transfer_from_escrow(
                &ctx.game,
                &ctx.game_key,
                ctx.mint_decimals,
                &second_escrow,
                &ctx.second_player_token_account,
            ),
            transfer_from_escrow(
                &ctx.game,
                &ctx.game_key,
                ctx.mint_decimals,
                &first_escrow,
                &ctx.second_player_token_account,
            ),
        ),
    };
    let payout = Payout {
        first_transfer,
        second_transfer,
        first_close: close_escrow(&ctx.game, &ctx.game_key, &first_escrow, &first_player),
        second_close: close_escrow(&ctx.game, &ctx.game_key, &second_escrow, &second_player),
        close_game_to: None,
    };

    ctx.game.set_claimed(&winner, amount_won, now);
    Ok(payout)
}

} // verus!
