pub mod pattern;
pub mod action;
pub mod state;
pub mod sequencer;
pub mod voices;
pub mod laws;
