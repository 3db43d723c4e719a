//! The instructions on a game.

pub mod cancel_game;
pub mod funds;
pub mod initialize_game;
pub mod join_game;
pub mod reveal_choice;
pub mod settle_game;
pub mod unwind_game;

pub use cancel_game::CancelGame;
pub use funds::{Deposit, Payout, Refund};
pub use initialize_game::InitializeGame;
pub use join_game::JoinGame;
pub use reveal_choice::RevealChoice;
pub use settle_game::SettleGame;
pub use unwind_game::UnwindGame;
