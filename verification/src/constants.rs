//! Namespace tags from which account addresses are derived.

use vstd::prelude::*;

verus! {

/// Tag of the settings account: `settings`.
pub const SETTINGS: [u8; 8] = [115, 101, 116, 116, 105, 110, 103, 115];

/// Tag of a game account: `game`.
pub const GAME: [u8; 4] = [103, 97, 109, 101];

/// Tag of a player's escrow account: `game_escrow`.
pub const GAME_ESCROW: [u8; 11] = [103, 97, 109, 101, 95, 101, 115, 99, 114, 111, 119];

/// Tag of the first player: `first_player`.
pub const FIRST_PLAYER: [u8; 12] = [102, 105, 114, 115, 116, 95, 112, 108, 97, 121, 101, 114];

/// Tag of the second player: `second_player`.
pub const SECOND_PLAYER: [u8; 13] = [
    115, 101, 99, 111, 110, 100, 95, 112, 108, 97, 121, 101, 114,
];

} // verus!
