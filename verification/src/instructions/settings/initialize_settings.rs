//! Creating the configuration: only the bootstrap signer may.

use vstd::prelude::*;
use crate::pubkey::{bytes_equal, Pubkey};
use crate::state::settings::Settings;

verus! {

/// Address of the one signer that may create the configuration,
/// `11111111111111111111111111111111`.
pub const BOOTSTRAP_SIGNER: [u8; 32] = [
    0, 0, 0, 0, 0, 0, 0, 0, 0, 0, 0, 0, 0, 0, 0, 0,
    0, 0, 0, 0, 0, 0, 0, 0, 0, 0, 0, 0, 0, 0, 0, 0,
];

/// What creating the configuration reads.
#[derive(Clone, Copy, Debug, PartialEq, Eq)]
pub struct InitializeSettings {
    /// Discriminant of the configuration account's derived address.
    pub settings_bump: u8,
    /// Who asks for the configuration to be created.
    pub signer: Pubkey,
}

impl InitializeSettings {
    /// The configuration as the bootstrap signer creates it, with itself as
    /// the treasury; any other signer creates none.
    pub open spec fn initialized(
        self,
        time_for_penalization: i64,
        time_for_stale: i64,
        game_fee_lamports: u64,
    ) -> Option<Settings> {
        if self.signer@ == BOOTSTRAP_SIGNER@ {
            Some(
                Settings {
                    bump: self.settings_bump,
                    time_for_penalization,
                    time_for_stale,
                    treasury: self.signer,
                    player_fee_lamports: game_fee_lamports,
                },
            )
        } else {
            None
        }
    }
}

/// Creates the configuration, or nothing where the signer is not the
/// bootstrap signer.
pub fn processor(
    ctx: &InitializeSettings,
    time_for_penalization: i64,
    time_for_stale: i64,
    game_fee_lamports: u64,
) -> (settings: Option<Settings>)
    ensures
        settings == ctx.initialized(time_for_penalization, time_for_stale, game_fee_lamports),
{
    if !bytes_equal(&ctx.signer.bytes, &BOOTSTRAP_SIGNER) {
        return None;
    }
    Some(
        Settings::new(
            ctx.settings_bump,
            time_for_penalization,
            time_for_stale,
            ctx.signer,
            game_fee_lamports,
        ),
    )
}

} // verus!
