//! The instructions on the configuration.

pub mod initialize_settings;
pub mod update_settings;

pub use initialize_settings::InitializeSettings;
pub use update_settings::UpdateSettings;
