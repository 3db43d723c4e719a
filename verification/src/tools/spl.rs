//! Transfers of the staked asset.

use vstd::prelude::*;
use crate::pubkey::{bytes_equal, Pubkey};
use crate::state::game::GameAuthority;

verus! {

/// Address of the legacy token program,
/// `TokenkegQfeZyiNwAJbNbGKPFXCWuBvf9Ss623VQ5DA`.
pub const LEGACY_TOKEN_PROGRAM_ID: [u8; 32] = [
    6, 221, 246, 225, 215, 101, 161, 147, 217, 203, 225, 70, 206, 235, 121, 172,
    28, 180, 133, 237, 95, 91, 55, 145, 58, 140, 245, 133, 126, 255, 0, 169,
];

/// What a checked transfer reads of the staked asset.
#[derive(Clone, Copy, Debug, PartialEq, Eq)]
pub struct Mint {
    pub key: Pubkey,
    /// Decimal places of the asset's amounts.
    pub decimals: u8,
}

/// A transfer of the staked asset that is to be made.
#[derive(Clone, Debug, PartialEq, Eq)]
pub struct SplTransfer {
    pub token_program: Pubkey,
    pub from: Pubkey,
    pub to: Pubkey,
    pub authority: Pubkey,
    pub amount: u64,
    /// The asset whose decimals the token program holds the transfer to:
    /// there for the checked variant, absent for the legacy one.
    pub checked: Option<Mint>,
    /// What the authority signs with where it is a game account; absent
    /// where the authority signs the transaction itself.
    pub signer_seeds: Option<GameAuthority>,
}

/// The closing of an escrow account that is to be made. What is left in the
/// account goes to `destination`.
#[derive(Clone, Debug, PartialEq, Eq)]
pub struct CloseAccount {
    pub token_program: Pubkey,
    pub account: Pubkey,
    pub destination: Pubkey,
    pub authority: Pubkey,
    pub signer_seeds: GameAuthority,
}

/// The transfer of `amount` from `from` to `to` under `authority`. The
/// legacy token program gets the legacy variant, every other program the
/// checked one.
pub open spec fn spl_transfer(
    token_program: Pubkey,
    from: Pubkey,
    to: Pubkey,
    authority: Pubkey,
    mint: Mint,
    amount: u64,
    signer_seeds: Option<GameAuthority>,
) -> SplTransfer {
    SplTransfer {
        token_program,
        from,
        to,
        authority,
        amount,
        checked: if token_program@ == LEGACY_TOKEN_PROGRAM_ID@ {
            None
        } else {
            Some(mint)
        },
        signer_seeds,
    }
}

/// Picks the variant of the transfer by the token program.
pub fn transfer_spl_compatible(
    token_program: &Pubkey,
    from: &Pubkey,
    to: &Pubkey,
    authority: &Pubkey,
    mint: &Mint,
    amount: u64,
    signer_seeds: Option<GameAuthority>,
) -> (transfer: SplTransfer)
    ensures
        transfer == spl_transfer(
            *token_program,
            *from,
            *to,
            *authority,
            *mint,
            amount,
            signer_seeds,
        ),
{
    let checked = if bytes_equal(&token_program.bytes, &LEGACY_TOKEN_PROGRAM_ID) {
        None
    } else {
        Some(*mint)
    };
    SplTransfer {
        token_program: *token_program,
        from: *from,
        to: *to,
        authority: *authority,
        amount,
        checked,
        signer_seeds,
    }
}

} // verus!
