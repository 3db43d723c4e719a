//! What the instructions share: hashing, transfers, conversions.

pub mod hash;
pub mod lamports;
pub mod spl;
pub mod vec;

pub use lamports::{transfer_lamports, LamportTransfer, TransferLamports};
pub use spl::{transfer_spl_compatible, CloseAccount, Mint, SplTransfer};
pub use vec::vec_to_arr_of_n;
