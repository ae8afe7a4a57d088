//! The audio backends the synthesizer can play through.
use vstd::prelude::*;

verus! {

/// An audio output backend: cpal (cross-platform) or PulseAudio.
#[derive(Debug, Clone, Copy, PartialEq, Eq, Structural)]
pub enum AudioBackend {
    Cpal,
    PulseAudio,
}

} // verus!
