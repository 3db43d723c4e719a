//! The configuration shared by all games.

use vstd::prelude::*;
use crate::pubkey::Pubkey;

verus! {

/// The configuration record. There is one, and only the treasury changes it.
#[derive(Clone, Copy, Debug, PartialEq, Eq)]
pub struct Settings {
    /// Discriminant of the record's derived address.
    pub bump: u8,
    /// Seconds after the adversary's reveal from which a player who has not
    /// revealed has forfeited.
    pub time_for_penalization: i64,
    /// Seconds after creation from which a started game without reveals is stale.
    pub time_for_stale: i64,
    /// The address that receives fees and may change the configuration.
    pub treasury: Pubkey,
    /// The fee that each player pays, in the native unit.
    pub player_fee_lamports: u64,
}

impl Settings {
    /// Bytes that the stored record takes: an 8-byte tag, the bump, the two
    /// durations, the treasury address and the fee.
    pub open spec fn spec_size() -> nat {
        (8 + 1 + 8 + 8 + 32 + 8) as nat
    }

    /// Bytes that the stored record takes.
    pub fn size() -> (bytes: usize)
        ensures
            bytes == Settings::spec_size(),
            bytes == 65,
    {
        8 + 1 + 8 + 8 + 32 + 8
    }

    pub fn new(
        bump: u8,
        time_for_penalization: i64,
        time_for_stale: i64,
        treasury: Pubkey,
        player_fee_lamports: u64,
    ) -> (settings: Settings)
        ensures
            settings == (Settings {
                bump,
                time_for_penalization,
                time_for_stale,
                treasury,
                player_fee_lamports,
            }),
    {
        Settings { bump, time_for_penalization, time_for_stale, treasury, player_fee_lamports }
    }
}

} // verus!
