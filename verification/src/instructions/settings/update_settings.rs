//! Changing the configuration: only the treasury may.

use vstd::prelude::*;
use crate::pubkey::Pubkey;
use crate::state::settings::Settings;

verus! {

/// What changing the configuration reads and changes.
#[derive(Clone, Copy, Debug, PartialEq, Eq)]
pub struct UpdateSettings {
    pub settings: Settings,
    /// Who asks for the change.
    pub signer: Pubkey,
}

impl UpdateSettings {
    /// The configuration after the change: the two windows and the fee are
    /// overwritten as given, whatever they are; the bump and the treasury
    /// stay.
    pub open spec fn updated(
        self,
        time_for_penalization: i64,
        time_for_stale: i64,
        player_fee_lamports: u64,
    ) -> Settings {
        Settings { time_for_penalization, time_for_stale, player_fee_lamports, ..self.settings }
    }
}

/// Changes the configuration if the signer is its treasury, and says
/// whether it did. Where it did not, nothing has changed.
pub fn processor(
    ctx: &mut UpdateSettings,
    time_for_penalization: i64,
    time_for_stale: i64,
    player_fee_lamports: u64,
) -> (changed: bool)
    ensures
        changed == (old(ctx).signer == old(ctx).settings.treasury),
        changed ==> *final(ctx) == (UpdateSettings {
            settings: old(ctx).updated(time_for_penalization, time_for_stale, player_fee_lamports),
            ..*old(ctx)
        }),
        !changed ==> *final(ctx) == *old(ctx),
{
    if ctx.signer != ctx.settings.treasury {
        return false;
    }
    ctx.settings.time_for_stale = time_for_stale;
    ctx.settings.time_for_penalization = time_for_penalization;
    ctx.settings.player_fee_lamports = player_fee_lamports;
    true
}

} // verus!
