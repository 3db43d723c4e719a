//! The movements of funds that the instructions on a game order. The
//! instructions decide them; whoever runs an instruction makes them, in the
//! order given, and drops the whole instruction if one of them fails.

use vstd::prelude::*;
use crate::pubkey::Pubkey;
use crate::state::game::Game;
use crate::tools::lamports::LamportTransfer;
use crate::tools::spl::{spl_transfer, transfer_spl_compatible, CloseAccount, Mint, SplTransfer};

verus! {

/// Address of the system program, which moves the native unit.
pub const SYSTEM_PROGRAM_ID: [u8; 32] = [
    0, 0, 0, 0, 0, 0, 0, 0, 0, 0, 0, 0, 0, 0, 0, 0,
    0, 0, 0, 0, 0, 0, 0, 0, 0, 0, 0, 0, 0, 0, 0, 0,
];

/// What a player's entry into a game moves: the stake into the player's
/// escrow, then the fee to the treasury.
#[derive(Clone, Debug, PartialEq, Eq)]
pub struct Deposit {
    pub stake: SplTransfer,
    pub fee: LamportTransfer,
}

/// What the end of a started game moves: one transfer out of each escrow,
/// then the closing of both escrows, and of the game account where
/// `close_game_to` names who receives what is left in it.
#[derive(Clone, Debug, PartialEq, Eq)]
pub struct Payout {
    pub first_transfer: SplTransfer,
    pub second_transfer: SplTransfer,
    pub first_close: CloseAccount,
    pub second_close: CloseAccount,
    pub close_game_to: Option<Pubkey>,
}

impl Payout {
    /// What the two transfers together put into `account`.
    pub open spec fn credited_to(self, account: Pubkey) -> int {
        (if self.first_transfer.to == account {
            self.first_transfer.amount as int
        } else {
            0
        }) + (if self.second_transfer.to == account {
            self.second_transfer.amount as int
        } else {
            0
        })
    }

    /// What the two transfers together take out of `account`.
    pub open spec fn debited_from(self, account: Pubkey) -> int {
        (if self.first_transfer.from == account {
            self.first_transfer.amount as int
        } else {
            0
        }) + (if self.second_transfer.from == account {
            self.second_transfer.amount as int
        } else {
            0
        })
    }

    /// One of the two closings is that of `account`.
    pub open spec fn closes(self, account: Pubkey) -> bool {
        self.first_close.account == account || self.second_close.account == account
    }
}

/// What the cancelling of a game moves: the stake back out of the escrow,
/// then the closing of the escrow and of the game account.
#[derive(Clone, Debug, PartialEq, Eq)]
pub struct Refund {
    pub transfer: SplTransfer,
    pub close: CloseAccount,
    pub close_game_to: Pubkey,
}

/// The transfer of the game's stake out of the escrow `from` into `to`,
/// signed by the game account, whose address is `game_key`.
pub open spec fn escrow_transfer(
    game: Game,
    game_key: Pubkey,
    mint_decimals: u8,
    from: Pubkey,
    to: Pubkey,
) -> SplTransfer {
    spl_transfer(
        game.token_program,
        from,
        to,
        game_key,
        Mint { key: game.mint, decimals: mint_decimals },
        game.amount_to_match,
        Some(game.spec_authority()),
    )
}

/// The closing of the escrow `account`, signed by the game account, whose
/// address is `game_key`.
pub open spec fn escrow_close(
    game: Game,
    game_key: Pubkey,
    account: Pubkey,
    destination: Pubkey,
) -> CloseAccount {
    CloseAccount {
        token_program: game.token_program,
        account,
        destination,
        authority: game_key,
        signer_seeds: game.spec_authority(),
    }
}

/// Orders the transfer of the game's stake out of an escrow.
pub fn transfer_from_escrow(
    game: &Game,
    game_key: &Pubkey,
    mint_decimals: u8,
    from: &Pubkey,
    to: &Pubkey,
) -> (transfer: SplTransfer)
    ensures
        transfer == escrow_transfer(*game, *game_key, mint_decimals, *from, *to),
{
    let mint = Mint { key: game.mint, decimals: mint_decimals };
    transfer_spl_compatible(
        &game.token_program,
        from,
        to,
        game_key,
        &mint,
        game.amount_to_match,
        Some(game.authority()),
    )
}

/// Orders the closing of an escrow.
pub fn close_escrow(game: &Game, game_key: &Pubkey, account: &Pubkey, destination: &Pubkey) -> (close:
    CloseAccount)
    ensures
        close == escrow_close(*game, *game_key, *account, *destination),
{
    CloseAccount {
        token_program: game.token_program,
        account: *account,
        destination: *destination,
        authority: *game_key,
        signer_seeds: game.authority(),
    }
}

} // verus!
