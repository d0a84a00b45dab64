//! Companion display for a theatre cue-playback console: the OSC subscription
//! agent, the cue state it feeds, and the text the display shows.

pub mod agent;
pub mod config;
pub mod cue;
pub mod dispatch;
pub mod event;
pub mod laws;
pub mod machine;
pub mod osc;
pub mod shell;
pub mod text;
