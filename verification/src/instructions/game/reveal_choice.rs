//! Revealing a choice: a player opens its commitment.

use vstd::prelude::*;
use crate::error::RockPaperScissorsError;
use crate::pubkey::{bytes_equal, Pubkey};
use crate::state::game::{Choice, Game, GameState, Player};
use crate::tools::hash::{hashv, sha256};
use crate::tools::vec::vec_to_arr_of_n;

verus! {

/// What revealing a choice reads and changes.
#[derive(Clone, Debug, PartialEq, Eq)]
pub struct RevealChoice {
    pub game: Game,
    /// Who reveals.
    pub player: Pubkey,
}

/// What a commitment is the hash of: the choice's byte, then the salt.
pub open spec fn commitment_input(choice: Choice, salt: Seq<u8>) -> Seq<u8> {
    seq![choice.spec_to_byte()] + salt
}

/// The bytes that are hashed for `choice` and `salt`.
pub fn val_to_hash(choice: Choice, salt: &[u8; 32]) -> (input: [u8; 33])
    ensures
        input@ == commitment_input(choice, salt@),
{
    let mut bytes: Vec<u8> = Vec::new();
    bytes.push(choice.to_byte());
    let mut i: usize = 0;
    while i < 32
        invariant
            i <= 32,
            bytes@ == seq![choice.spec_to_byte()] + salt@.subrange(0, i as int),
        decreases 32 - i,
    {
        bytes.push(salt[i]);
        i += 1;
    }
    assert(salt@.subrange(0, 32) =~= salt@);
    vec_to_arr_of_n::<u8, 33>(bytes)
}

/// A player reveals only once.
pub fn require_player_did_not_reveal(player: &Player, game: &Game) -> (result: Result<
    (),
    RockPaperScissorsError,
>)
    ensures
        result == (if game.choice_of(*player) is Some {
            Err::<(), RockPaperScissorsError>(RockPaperScissorsError::PlayerAlreadyRevealed)
        } else {
            Ok(())
        }),
{
    match player {
        Player::First => {
            if game.first_player_choice.is_some() {
                return Err(RockPaperScissorsError::PlayerAlreadyRevealed);
            }
        },
        Player::Second => {
            if game.second_player_choice.is_some() {
                return Err(RockPaperScissorsError::PlayerAlreadyRevealed);
            }
        },
    }
    Ok(())
}

impl RevealChoice {
    /// What a reveal of `choice` at `now` comes to, where `created_hash` is
    /// the hash of the choice and the salt that the player brings: the game
    /// with the choice on record, or the reason why the reveal is refused.
    /// The game must have started, the player must play in it and must not
    /// have revealed yet, and the hash must be the player's commitment, byte
    /// for byte.
    pub open spec fn revealed(self, choice: Choice, created_hash: Seq<u8>, now: i64) -> Result<
        Game,
        RockPaperScissorsError,
    > {
        if self.game.state != GameState::Started {
            Err(RockPaperScissorsError::InvalidGameState)
        } else {
            match Player::lookup(self.game, self.player) {
                None => Err(RockPaperScissorsError::InvalidPlayer),
                Some(player) => if self.game.choice_of(player) is Some {
                    Err(RockPaperScissorsError::PlayerAlreadyRevealed)
                } else if self.game.commitment_of(player) matches Some(stored_hash) && stored_hash@
                    == created_hash {
                    Ok(self.game.revealed(player, choice, now))
                } else {
                    Err(RockPaperScissorsError::InvalidHash)
                },
            }
        }
    }
}

/// Records `choice` for the player at `now` if `created_hash` is the
/// player's commitment. On failure nothing has changed.
pub fn reveal_with_hash(ctx: &mut RevealChoice, choice: Choice, created_hash: &[u8; 32], now: i64) -> (result:
    Result<(), RockPaperScissorsError>)
    ensures
        match result {
            Ok(()) => old(ctx).revealed(choice, created_hash@, now) == Ok::<
                Game,
                RockPaperScissorsError,
            >(final(ctx).game) && final(ctx).player == old(ctx).player,
            Err(error) => old(ctx).revealed(choice, created_hash@, now) == Err::<
                Game,
                RockPaperScissorsError,
            >(error) && *final(ctx) == *old(ctx),
        },
        old(ctx).game.wf() ==> final(ctx).game.wf(),
{
    if !ctx.game.is_started() {
        return Err(RockPaperScissorsError::InvalidGameState);
    }
    let player = match ctx.game.to_player(&ctx.player) {
        Ok(player) => player,
        Err(error) => {
            return Err(error);
        },
    };
    match require_player_did_not_reveal(&player, &ctx.game) {
        Ok(()) => {},
        Err(error) => {
            return Err(error);
        },
    }
    let stored_hash = match player {
        Player::First => Some(ctx.game.first_player_hash),
        Player::Second => ctx.game.second_player_hash,
    };
    match stored_hash {
        Some(stored_hash) => {
            if !bytes_equal(created_hash, &stored_hash) {
                return Err(RockPaperScissorsError::InvalidHash);
            }
        },
        None => {
            return Err(RockPaperScissorsError::InvalidHash);
        },
    }
    ctx.game.set_player_choice(player, choice, now);
    Ok(())
}

/// Reveals `choice` for the player at `now`: hashes the choice and `salt`
/// and records the choice if the hash is the player's commitment. On
/// failure nothing has changed.
pub fn processor(ctx: &mut RevealChoice, choice: Choice, salt: [u8; 32], now: i64) -> (result: Result<
    (),
    RockPaperScissorsError,
>)
    ensures
        match result {
            Ok(()) => old(ctx).revealed(choice, sha256(commitment_input(choice, salt@)), now)
                == Ok::<Game, RockPaperScissorsError>(final(ctx).game) && final(ctx).player == old(
                ctx,
            ).player,
            Err(error) => old(ctx).revealed(choice, sha256(commitment_input(choice, salt@)), now)
                == Err::<Game, RockPaperScissorsError>(error) && *final(ctx) == *old(ctx),
        },
        old(ctx).game.wf() ==> final(ctx).game.wf(),
{
    let val_to_hash = val_to_hash(choice, &salt);
    let created_hash = hashv(&val_to_hash);
    reveal_with_hash(ctx, choice, &created_hash, now)
}

} // verus!
