//! The instructions: each checks its preconditions, changes the records and
//! orders the movements of funds that go with the change.

pub mod game;
pub mod settings;

pub use game::{
    CancelGame, Deposit, InitializeGame, JoinGame, Payout, Refund, RevealChoice, SettleGame,
    UnwindGame,
};
pub use settings::{InitializeSettings, UpdateSettings};
