//! Audio device selection, configuration and stream health.
pub mod config;
pub mod io;
pub mod playback;
