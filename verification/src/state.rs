//! The synthesizer's control state and the parameters of its tone.
//!
//! The tone's frequency and volume are real numbers that the audio side keeps;
//! the constants here are the limits and steps by which the controls move them.
use vstd::prelude::*;
use crate::focus::FocusPosition;
use crate::piano::PianoKey;
use crate::waveform::WaveShape;

verus! {

/// The frequency, in Hz, that the synthesizer starts with.
pub const INITIAL_FREQUENCY_HZ: u32 = 440;

/// The lowest frequency, in Hz, that the controls reach.
pub const MIN_FREQUENCY_HZ: u32 = 20;

/// The highest frequency, in Hz, that the controls reach.
pub const MAX_FREQUENCY_HZ: u32 = 20000;

/// How far, in Hz, one step of the frequency control moves the frequency;
/// dragging moves it this far per terminal column too.
pub const FREQUENCY_STEP_HZ: u32 = 10;

/// The volume, in percent of full scale, that the synthesizer starts with.
pub const INITIAL_VOLUME_PERCENT: u32 = 50;

/// The highest volume, in percent of full scale; the lowest is 0.
pub const MAX_VOLUME_PERCENT: u32 = 100;

/// How far, in percent, one step of the volume control moves the volume.
pub const VOLUME_STEP_PERCENT: u32 = 5;

/// How far, in percent, dragging moves the volume per terminal column.
pub const VOLUME_DRAG_PERCENT: u32 = 1;

/// How long, in nanoseconds, a press of the play button sounds when it is not
/// held on: after this much time without a new press, the sound stops.
pub const PLAY_TIMEOUT_NANOS: u64 = 100_000_000;

/// The octave the piano keyboard starts in.
pub const INITIAL_OCTAVE: i32 = 4;

/// The last row of the focus grid: the waveform buttons.
pub const LAST_ROW: usize = 2;

/// The last column of the waveform row (four buttons).
pub const LAST_WAVEFORM_COL: usize = 3;

/// The control that a focus row stands for.
#[derive(Debug, Clone, Copy, PartialEq, Eq, Structural)]
pub enum FocusedField {
    Frequency,
    Volume,
    Shape,
}

/// The field that row `row` of the focus grid stands for.
pub open spec fn field_of_row(row: usize) -> FocusedField {
    if row == 0 {
        FocusedField::Frequency
    } else if row == 1 {
        FocusedField::Volume
    } else {
        FocusedField::Shape
    }
}

/// The last column of row `row` of the focus grid.
pub open spec fn last_col_of_row(row: usize) -> usize {
    if row == LAST_ROW {
        LAST_WAVEFORM_COL
    } else {
        0
    }
}

/// Everything the synthesizer's controls decide, apart from the tone's
/// frequency and volume and the time of the last press of the play button.
#[derive(Debug, Clone, Copy, PartialEq, Eq, Structural)]
pub struct SynthState {
    pub shape: WaveShape,
    pub is_playing: bool,
    pub keep_playing: bool,
    pub should_exit: bool,
    pub focus: FocusPosition,
    pub mouse_dragging: bool,
    pub mouse_start_x: u16,
    /// The piano key that sounds (the keyboard is monophonic).
    pub current_piano_key: Option<PianoKey>,
    pub current_octave: i32,
    pub semitone_offset: i32,
}

impl SynthState {
    /// The state the synthesizer starts in.
    pub open spec fn initial() -> SynthState {
        SynthState {
            shape: WaveShape::Sine,
            is_playing: false,
            keep_playing: false,
            should_exit: false,
            focus: FocusPosition { row: 0, col: 0 },
            mouse_dragging: false,
            mouse_start_x: 0,
            current_piano_key: None,
            current_octave: INITIAL_OCTAVE,
            semitone_offset: 0,
        }
    }

    /// The invariant that every control keeps: the focus lies in the grid
    /// (three rows; four columns on the waveform row, one on the others), the
    /// octave lies on the piano and the semitone offset within an octave.
    pub open spec fn wf(self) -> bool {
        &&& self.focus.row <= LAST_ROW
        &&& self.focus.col <= last_col_of_row(self.focus.row)
        &&& 0 <= self.current_octave <= 8
        &&& 0 <= self.semitone_offset < 12
    }

    /// Create the state the synthesizer starts in.
    pub fn new() -> (r: Self)
        ensures
            r == SynthState::initial(),
            r.wf(),
    {
        SynthState {
            shape: WaveShape::Sine,
            is_playing: false,
            keep_playing: false,
            should_exit: false,
            focus: FocusPosition::new(0, 0),
            mouse_dragging: false,
            mouse_start_x: 0,
            current_piano_key: None,
            current_octave: INITIAL_OCTAVE,
            semitone_offset: 0,
        }
    }

    /// Get the field that has the focus.
    pub fn focused_field(&self) -> (r: FocusedField)
        ensures
            r == field_of_row(self.focus.row),
    {
        if self.focus.row == 0 {
            FocusedField::Frequency
        } else if self.focus.row == 1 {
            FocusedField::Volume
        } else {
            FocusedField::Shape
        }
    }
}

impl Default for SynthState {
    fn default() -> (r: Self)
        ensures
            r == SynthState::initial(),
    {
        Self::new()
    }
}

} // verus!
