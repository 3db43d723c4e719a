//! Transfers of the native unit.

use vstd::prelude::*;
use crate::pubkey::Pubkey;

verus! {

/// The accounts of a transfer of the native unit.
#[derive(Clone, Copy, Debug, PartialEq, Eq)]
pub struct TransferLamports {
    pub from: Pubkey,
    pub to: Pubkey,
    pub system_program: Pubkey,
}

/// A transfer of the native unit that is to be made.
#[derive(Clone, Copy, Debug, PartialEq, Eq)]
pub struct LamportTransfer {
    pub accounts: TransferLamports,
    pub lamports: u64,
}

/// The transfer of `amount` between the given accounts.
pub fn transfer_lamports(accounts: TransferLamports, amount: u64) -> (transfer: LamportTransfer)
    ensures
        transfer == (LamportTransfer { accounts, lamports: amount }),
{
    LamportTransfer { accounts, lamports: amount }
}

} // verus!
