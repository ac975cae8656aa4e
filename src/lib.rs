//! Settings persistence for a desktop assistant shell.
//!
//! User settings travel between the UI and a secure credential store. Before a
//! record is stored, the per-provider API keys are lifted out of the settings
//! into a separate bundle, and the copies inside the settings are blanked; on
//! load the two are recombined. Missing or unreadable records fall back to a
//! fixed default.
pub mod settings;
pub mod store;
pub mod laws;
