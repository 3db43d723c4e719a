//! Escrowed commit-reveal rock-paper-scissors: the game record, its state
//! machine and the settlement rules.
//!
//! Two players each stake the same amount and commit to a choice by its
//! hash. Each then reveals the choice, and anybody may have the game
//! settled: the better throw takes both stakes, a draw returns them, and a
//! player who does not reveal in time after the other has forfeits.
//!
//! The instructions here decide; they move nothing themselves. Each takes
//! the records it reads as plain values and the time as an argument, and
//! returns the movements of funds that whoever runs it has to make.

use vstd::prelude::*;

pub mod constants;
pub mod error;
pub mod instructions;
pub mod laws;
pub mod pubkey;
pub mod state;
pub mod tools;

pub use error::RockPaperScissorsError;
pub use instructions::{
    CancelGame, Deposit, InitializeGame, InitializeSettings, JoinGame, Payout, Refund,
    RevealChoice, SettleGame, UnwindGame, UpdateSettings,
};
pub use pubkey::Pubkey;
pub use state::{Choice, Game, GameState, Player, Settings};
pub use tools::{
    transfer_lamports, transfer_spl_compatible, vec_to_arr_of_n, CloseAccount, LamportTransfer,
    Mint, SplTransfer, TransferLamports,
};

verus! {

/// Creates the configuration, or nothing where the signer is not the
/// bootstrap signer.
pub fn initialize_settings(
    ctx: &InitializeSettings,
    time_for_penalization: i64,
    time_for_stale: i64,
    player_fee_lamports: u64,
) -> (settings: Option<Settings>)
    ensures
        settings == ctx.initialized(time_for_penalization, time_for_stale, player_fee_lamports),
{
    instructions::settings::initialize_settings::processor(
        ctx,
        time_for_penalization,
        time_for_stale,
        player_fee_lamports,
    )
}

/// Changes the configuration if the signer is its treasury, and says
/// whether it did. Where it did not, nothing has changed.
pub fn update_settings(
    ctx: &mut UpdateSettings,
    time_for_penalization: i64,
    time_for_stale: i64,
    player_fee_lamports: u64,
) -> (changed: bool)
    ensures
        changed == (old(ctx).signer == old(ctx).settings.treasury),
        changed ==> *final(ctx) == (UpdateSettings {
            settings: old(ctx).updated(time_for_penalization, time_for_stale, player_fee_lamports),
            ..*old(ctx)
        }),
        !changed ==> *final(ctx) == *old(ctx),
{
    instructions::settings::update_settings::processor(
        ctx,
        time_for_penalization,
        time_for_stale,
        player_fee_lamports,
    )
}

/// Creates a game at `now` with the stake `amount` and the first player's
/// commitment `hash`, and orders the player's deposit.
pub fn initialize_game(ctx: &InitializeGame, game_id: String, amount: u64, hash: [u8; 32], now: i64) -> (created:
    (Game, Deposit))
    ensures
        created.0 == ctx.created(game_id, amount, hash, now),
        created.1 == ctx.deposit(amount),
        created.0.wf(),
{
    instructions::game::initialize_game::processor(ctx, game_id, amount, hash, now)
}

/// Joins the game with the commitment `hash`, and orders the player's
/// deposit. On failure nothing has changed.
pub fn join_game(ctx: &mut JoinGame, hash: [u8; 32]) -> (result: Result<
    Deposit,
    RockPaperScissorsError,
>)
    ensures
        match result {
            Ok(deposit) => old(ctx).joined(hash) == Ok::<(Game, Deposit), RockPaperScissorsError>(
                (final(ctx).game, deposit),
            ) && *final(ctx) == (JoinGame { game: final(ctx).game, ..*old(ctx) }),
            Err(error) => old(ctx).joined(hash) == Err::<(Game, Deposit), RockPaperScissorsError>(
                error,
            ) && *final(ctx) == *old(ctx),
        },
        old(ctx).game.wf() ==> final(ctx).game.wf(),
{
    instructions::game::join_game::processor(ctx, hash)
}

/// Cancels a game that nobody has joined, and orders the refund.
pub fn cancel_game(ctx: &CancelGame) -> (result: Result<Refund, RockPaperScissorsError>)
    ensures
        result == ctx.cancelled(),
{
    instructions::game::cancel_game::processor(ctx)
}

/// Unwinds a stale game at `now`, and orders the refunds.
pub fn unwind_game(ctx: &UnwindGame, now: i64) -> (result: Result<Payout, RockPaperScissorsError>)
    ensures
        result == ctx.unwound(now),
{
    instructions::game::unwind_game::processor(ctx, now)
}

/// Reveals `choice` for the player at `now`, against the hash of the choice
/// and `salt`. On failure nothing has changed.
pub fn reveal_choice(ctx: &mut RevealChoice, choice: Choice, salt: [u8; 32], now: i64) -> (result:
    Result<(), RockPaperScissorsError>)
    ensures
        match result {
            Ok(()) => old(ctx).revealed(
                choice,
                tools::hash::sha256(instructions::game::reveal_choice::commitment_input(choice, salt@)),
                now,
            ) == Ok::<Game, RockPaperScissorsError>(final(ctx).game) && final(ctx).player == old(
                ctx,
            ).player,
            Err(error) => old(ctx).revealed(
                choice,
                tools::hash::sha256(instructions::game::reveal_choice::commitment_input(choice, salt@)),
                now,
            ) == Err::<Game, RockPaperScissorsError>(error) && *final(ctx) == *old(ctx),
        },
        old(ctx).game.wf() ==> final(ctx).game.wf(),
{
    instructions::game::reveal_choice::processor(ctx, choice, salt, now)
}

/// Settles the game at `now`, and orders the payout. On failure nothing has
/// changed.
pub fn settle_game(ctx: &mut SettleGame, now: i64) -> (result: Result<Payout, RockPaperScissorsError>)
    ensures
        match result {
            Ok(payout) => old(ctx).settled(now) == Ok::<(Game, Payout), RockPaperScissorsError>(
                (final(ctx).game, payout),
            ) && *final(ctx) == (SettleGame { game: final(ctx).game, ..*old(ctx) }),
            Err(error) => old(ctx).settled(now) == Err::<(Game, Payout), RockPaperScissorsError>(
                error,
            ) && *final(ctx) == *old(ctx),
        },
        old(ctx).game.wf() ==> final(ctx).game.wf(),
{
    instructions::game::settle_game::processor(ctx, now)
}

} // verus!
