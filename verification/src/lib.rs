//! Core logic of a terminal audio player: scanning a directory for audio
//! files, formatting playback times and a progress bar, and the playback
//! state machine that decides, on every input or tick, what the player
//! should do next.

pub mod display;
pub mod format;
pub mod player;
pub mod scan;
pub mod text;
