//! Rich-presence state for the game Deadlock: a verified state machine fed by
//! log and process signals, and the status line it shows.

pub mod clock;
pub mod clock_laws;
pub mod config;
pub mod game_state;
pub mod laws;
pub mod process_watcher;
pub mod text;
pub mod text_laws;
