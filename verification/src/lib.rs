//! Verified core of a capture card viewer: device selection, stream
//! supervision, session and settings logic.
pub mod text;

pub mod errors;
pub mod settings;

pub mod audio;
pub mod power;
pub mod watchdog;
pub mod video;
pub mod state;
pub mod session;
pub mod logger;
