//! The events that drive the synthesizer, and the changes of the tone that
//! they ask for.
use vstd::prelude::*;
use crate::piano::PianoKey;
use crate::waveform::WaveShape;

verus! {

/// What the mouse did.
#[derive(Debug, Clone, Copy, PartialEq, Eq, Structural)]
pub enum MouseKind {
    Down,
    Up,
    Drag,
    Moved,
    ScrollDown,
    ScrollUp,
    ScrollLeft,
    ScrollRight,
}

/// A mouse event: what happened, and in which terminal column.
#[derive(Debug, Clone, Copy, PartialEq, Eq, Structural)]
pub struct MouseInput {
    pub kind: MouseKind,
    pub column: u16,
}

/// An event for the synthesizer's state machine.
#[derive(Debug, Clone, Copy, PartialEq, Eq, Structural)]
pub enum Message {
    // Frequency adjustments
    IncreaseFrequency,
    DecreaseFrequency,
    // Volume adjustments
    IncreaseVolume,
    DecreaseVolume,
    // Waveform selection
    SetWaveform(WaveShape),
    // Playback control
    PressPlayButton,
    ReleasePlayButton,
    TogglePlay,
    // Piano control - monophonic
    KeyboardKeyDown(Option<PianoKey>),
    KeyboardKeyUp,
    ChangeOctave(i32),
    ChangeSemitone(i32),
    // UI focus
    FocusNext,
    FocusPrev,
    MoveUp,
    MoveDown,
    MoveLeft,
    MoveRight,
    /// Timeout-based release detection, with the time in nanoseconds that has
    /// passed since the play button was last pressed.
    CheckTimeoutRelease(u64),
    // Mouse interactions
    MouseEvent(MouseInput),
    // Exit signal
    Exit,
}

/// How the tone's frequency is to change.
#[derive(Debug, Clone, Copy, PartialEq, Eq, Structural)]
pub enum FrequencyChange {
    Unchanged,
    /// Up one step, to at most the highest frequency.
    StepUp,
    /// Down one step, to at least the lowest frequency.
    StepDown,
    /// By one step per column dragged (negative: down), kept within the limits.
    Drag(i16),
    /// To the frequency of a piano key.
    ToKey(PianoKey),
}

/// How the tone's volume is to change.
#[derive(Debug, Clone, Copy, PartialEq, Eq, Structural)]
pub enum VolumeChange {
    Unchanged,
    /// Up one step, to at most full volume.
    StepUp,
    /// Down one step, to at least silence.
    StepDown,
    /// By the drag amount per column dragged (negative: down), kept within the limits.
    Drag(i16),
}

/// What the audio side is to do after an event: change the frequency, change
/// the volume, and whether to restart the timer of the play button.
#[derive(Debug, Clone, Copy, PartialEq, Eq, Structural)]
pub struct Effects {
    pub frequency: FrequencyChange,
    pub volume: VolumeChange,
    pub restart_press_timer: bool,
}

/// No change to the tone and no restart of the timer.
pub open spec fn no_effects() -> Effects {
    Effects {
        frequency: FrequencyChange::Unchanged,
        volume: VolumeChange::Unchanged,
        restart_press_timer: false,
    }
}

impl Effects {
    /// No change to the tone and no restart of the timer.
    pub fn none() -> (r: Effects)
        ensures
            r == no_effects(),
    {
        Effects {
            frequency: FrequencyChange::Unchanged,
            volume: VolumeChange::Unchanged,
            restart_press_timer: false,
        }
    }
}

} // verus!
