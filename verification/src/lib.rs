//! A monophonic synthesizer's control logic: focus navigation, piano keys,
//! waveforms and the state machine that turns user input into new state.
pub mod focus;
pub mod decimal;
pub mod piano;
pub mod waveform;
pub mod state;
pub mod message;
pub mod update;
pub mod input;
pub mod keyboard;
pub mod audio;
