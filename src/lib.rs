//! History and cursor logic of a desktop notification daemon for a status bar.
pub mod template;
pub mod history;
pub mod output;
pub mod server;
pub mod laws;
