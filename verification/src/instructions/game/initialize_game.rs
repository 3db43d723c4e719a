//! Creating a game: the first player commits to a choice and stakes.

use vstd::prelude::*;
use crate::instructions::game::funds::{Deposit, SYSTEM_PROGRAM_ID};
use crate::pubkey::Pubkey;
use crate::state::game::{Game, GameState};
use crate::state::settings::Settings;
use crate::tools::lamports::{transfer_lamports, LamportTransfer, TransferLamports};
use crate::tools::spl::{spl_transfer, transfer_spl_compatible, Mint};

verus! {

/// What creating a game reads.
#[derive(Clone, Copy, Debug, PartialEq, Eq)]
pub struct InitializeGame {
    /// Discriminant of the new game account's derived address.
    pub game_bump: u8,
    /// The escrow that is made for the player's stake.
    pub player_escrow_token_account: Pubkey,
    /// The player's own account of the staked asset.
    pub player_token_account: Pubkey,
    /// The staked asset.
    pub mint: Mint,
    pub settings: Settings,
    /// Who creates the game.
    pub player: Pubkey,
    /// The program that keeps the asset's accounts.
    pub token_program: Pubkey,
}

/// The fee that `player` pays to the treasury on entering a game.
pub open spec fn entry_fee(settings: Settings, player: Pubkey) -> LamportTransfer {
    LamportTransfer {
        accounts: TransferLamports {
            from: player,
            to: settings.treasury,
            system_program: Pubkey { bytes: SYSTEM_PROGRAM_ID },
        },
        lamports: settings.player_fee_lamports,
    }
}

/// Orders the fee that `player` pays to the treasury on entering a game.
pub fn pay_entry_fee(settings: &Settings, player: &Pubkey) -> (fee: LamportTransfer)
    ensures
        fee == entry_fee(*settings, *player),
{
    transfer_lamports(
        TransferLamports {
            from: *player,
            to: settings.treasury,
            system_program: Pubkey { bytes: SYSTEM_PROGRAM_ID },
        },
        settings.player_fee_lamports,
    )
}

impl InitializeGame {
    /// The player's stake goes into the escrow under the player's own
    /// signature, and the fee to the treasury.
    pub open spec fn deposit(self, amount: u64) -> Deposit {
        Deposit {
            stake: spl_transfer(
                self.token_program,
                self.player_token_account,
                self.player_escrow_token_account,
                self.player,
                self.mint,
                amount,
                None,
            ),
            fee: entry_fee(self.settings, self.player),
        }
    }

    /// The game as it is created at `now`.
    pub open spec fn created(self, game_id: String, amount: u64, hash: [u8; 32], now: i64) -> Game {
        Game {
            bump: self.game_bump,
            game_id,
            mint: self.mint.key,
            token_program: self.token_program,
            amount_to_match: amount,
            first_player: self.player,
            first_player_hash: hash,
            first_player_escrow: self.player_escrow_token_account,
            first_player_choice: None,
            first_player_revealed_at: None,
            second_player: None,
            second_player_hash: None,
            second_player_escrow: None,
            second_player_choice: None,
            second_player_revealed_at: None,
            amount_won: None,
            drawn_at: None,
            state: GameState::Created,
            created_at: now,
        }
    }
}

/// Creates a game at `now` with the stake `amount` and the first player's
/// commitment `hash`. The deposit is to be made; the game exists only if it
/// succeeds.
pub fn processor(ctx: &InitializeGame, game_id: String, amount: u64, hash: [u8; 32], now: i64) -> (created:
    (Game, Deposit))
    ensures
        created.0 == ctx.created(game_id, amount, hash, now),
        created.1 == ctx.deposit(amount),
        created.0.wf(),
{
    let stake = transfer_spl_compatible(
        &ctx.token_program,
        &ctx.player_token_account,
        &ctx.player_escrow_token_account,
        &ctx.player,
        &ctx.mint,
        amount,
        None,
    );
    let fee = pay_entry_fee(&ctx.settings, &ctx.player);
    let game = Game::new(
        ctx.game_bump,
        game_id,
        ctx.mint.key,
        ctx.token_program,
        amount,
        ctx.player,
        hash,
        ctx.player_escrow_token_account,
        now,
    );
    (game, Deposit { stake, fee })
}

} // verus!
