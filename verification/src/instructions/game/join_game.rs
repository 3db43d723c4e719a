//! Joining a game: the second player commits to a choice and stakes.

use vstd::prelude::*;
use crate::error::RockPaperScissorsError;
use crate::instructions::game::funds::Deposit;
use crate::instructions::game::initialize_game::{entry_fee, pay_entry_fee};
use crate::pubkey::Pubkey;
use crate::state::game::{Game, GameState};
use crate::state::settings::Settings;
use crate::tools::spl::{spl_transfer, transfer_spl_compatible, Mint};

verus! {

/// What joining a game reads and changes.
#[derive(Clone, Debug, PartialEq, Eq)]
pub struct JoinGame {
    pub game: Game,
    /// The escrow that is made for the player's stake.
    pub player_escrow_token_account: Pubkey,
    /// The player's own account of the staked asset.
    pub player_token_account: Pubkey,
    /// Decimal places of the staked asset.
    pub mint_decimals: u8,
    pub settings: Settings,
    /// Who joins the game.
    pub player: Pubkey,
}

impl JoinGame {
    /// The stake that the game asks for goes from the player into the
    /// escrow under the player's own signature, and the fee to the treasury.
    pub open spec fn deposit(self) -> Deposit {
        Deposit {
            stake: spl_transfer(
                self.game.token_program,
                self.player_token_account,
                self.player_escrow_token_account,
                self.player,
                Mint { key: self.game.mint, decimals: self.mint_decimals },
                self.game.amount_to_match,
                None,
            ),
            fee: entry_fee(self.settings, self.player),
        }
    }

    /// What joining with the commitment `hash` comes to: the started game
    /// and the deposit, or the reason why the player cannot join. The first
    /// player cannot join its own game, and nobody can join a game that is
    /// past `Created`.
    pub open spec fn joined(self, hash: [u8; 32]) -> Result<(Game, Deposit), RockPaperScissorsError> {
        if self.player == self.game.first_player {
            Err(RockPaperScissorsError::BothPlayersCantBeTheSame)
        } else if self.game.state != GameState::Created {
            Err(RockPaperScissorsError::InvalidGameState)
        } else {
            Ok(
                (
                    self.game.joined(self.player, hash, self.player_escrow_token_account),
                    self.deposit(),
                ),
            )
        }
    }
}

/// Joins the game with the commitment `hash`. On success the game has
/// started and the deposit is to be made; on failure nothing has changed.
pub fn processor(ctx: &mut JoinGame, hash: [u8; 32]) -> (result: Result<
    Deposit,
    RockPaperScissorsError,
>)
    ensures
        match result {
            Ok(deposit) => old(ctx).joined(hash) == Ok::<(Game, Deposit), RockPaperScissorsError>(
                (final(ctx).game, deposit),
            ) && *final(ctx) == (JoinGame { game: final(ctx).game, ..*old(ctx) }),
            Err(error) => old(ctx).joined(hash) == Err::<(Game, Deposit), RockPaperScissorsError>(
                error,
            ) && *final(ctx) == *old(ctx),
        },
        old(ctx).game.wf() ==> final(ctx).game.wf(),
{
    if ctx.player == ctx.game.first_player {
        return Err(RockPaperScissorsError::BothPlayersCantBeTheSame);
    }
    if !ctx.game.is_created() {
        return Err(RockPaperScissorsError::InvalidGameState);
    }
    let mint = Mint { key: ctx.game.mint, decimals: ctx.mint_decimals };
    let stake = transfer_spl_compatible(
        &ctx.game.token_program,
        &ctx.player_token_account,
        &ctx.player_escrow_token_account,
        &ctx.player,
        &mint,
        ctx.game.amount_to_match,
        None,
    );
    let fee = pay_entry_fee(&ctx.settings, &ctx.player);
    ctx.game.join_game(ctx.player, hash, ctx.player_escrow_token_account);
    Ok(Deposit { stake, fee })
}

} // verus!
