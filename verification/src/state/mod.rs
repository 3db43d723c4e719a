//! The persisted records: the game and the configuration.

pub mod game;
pub mod settings;

pub use game::{Choice, Game, GameState, Player};
pub use settings::Settings;
