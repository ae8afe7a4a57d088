//! The keyboard bindings: which key press or release becomes which event.
use vstd::prelude::*;
use crate::message::Message;
use crate::piano::{get_key_for_octave_and_semitone, key_at};
use crate::state::{FocusedField, SynthState, field_of_row};
use crate::waveform::WaveShape;

verus! {

/// A key of the computer keyboard, as far as the bindings tell keys apart.
#[derive(Debug, Clone, Copy, PartialEq, Eq, Structural)]
pub enum KeyInput {
    Char(char),
    Tab,
    BackTab,
    Up,
    Down,
    Esc,
    Other,
}

/// The row of computer keys that plays the twelve semitones of an octave,
/// C first: white keys on the home row, black keys on the row above.
pub open spec fn piano_keys() -> Seq<char> {
    seq!['a', 'w', 's', 'e', 'd', 'f', 't', 'g', 'y', 'h', 'u', 'j']
}

/// The semitone (0 = C ... 11 = B) that the computer key `c` plays, if any:
/// its position in `piano_keys()`.
pub open spec fn piano_key_semitone(c: char) -> Option<int> {
    if c == 'a' {
        Some(0)
    } else if c == 'w' {
        Some(1)
    } else if c == 's' {
        Some(2)
    } else if c == 'e' {
        Some(3)
    } else if c == 'd' {
        Some(4)
    } else if c == 'f' {
        Some(5)
    } else if c == 't' {
        Some(6)
    } else if c == 'g' {
        Some(7)
    } else if c == 'y' {
        Some(8)
    } else if c == 'h' {
        Some(9)
    } else if c == 'u' {
        Some(10)
    } else if c == 'j' {
        Some(11)
    } else {
        None
    }
}

/// The semitone (0 = C ... 11 = B) that the computer key `c` plays.
pub fn piano_key_index(c: char) -> (r: Option<i32>)
    ensures
        r matches Some(i) ==> piano_key_semitone(c) == Some(i as int),
        r is None <==> piano_key_semitone(c) is None,
{
    if c == 'a' {
        Some(0)
    } else if c == 'w' {
        Some(1)
    } else if c == 's' {
        Some(2)
    } else if c == 'e' {
        Some(3)
    } else if c == 'd' {
        Some(4)
    } else if c == 'f' {
        Some(5)
    } else if c == 't' {
        Some(6)
    } else if c == 'g' {
        Some(7)
    } else if c == 'y' {
        Some(8)
    } else if c == 'h' {
        Some(9)
    } else if c == 'u' {
        Some(10)
    } else if c == 'j' {
        Some(11)
    } else {
        None
    }
}

/// The event that a key press asks for, in state `s`.
pub open spec fn key_message(key: KeyInput, s: SynthState) -> Option<Message> {
    match key {
        KeyInput::Char(c) => {
            if let Some(i) = piano_key_semitone(c) {
                Some(Message::KeyboardKeyDown(key_at(s.current_octave as int, i)))
            } else if c == 'k' {
                Some(Message::ChangeOctave(-1i32))
            } else if c == 'l' {
                Some(Message::ChangeOctave(1))
            } else if c == 'o' {
                Some(Message::ChangeSemitone(-1i32))
            } else if c == 'p' {
                Some(Message::ChangeSemitone(1))
            } else if c == '1' {
                Some(Message::SetWaveform(WaveShape::Sine))
            } else if c == '2' {
                Some(Message::SetWaveform(WaveShape::Square))
            } else if c == '3' {
                Some(Message::SetWaveform(WaveShape::Triangle))
            } else if c == '4' {
                Some(Message::SetWaveform(WaveShape::Sawtooth))
            } else if c == ' ' {
                Some(Message::TogglePlay)
            } else if c == 'q' {
                Some(Message::Exit)
            } else {
                None
            }
        },
        KeyInput::Tab => Some(Message::FocusNext),
        KeyInput::BackTab => Some(Message::FocusPrev),
        KeyInput::Up => match field_of_row(s.focus.row) {
            FocusedField::Frequency => Some(Message::IncreaseFrequency),
            FocusedField::Volume => Some(Message::IncreaseVolume),
            FocusedField::Shape => None,
        },
        KeyInput::Down => match field_of_row(s.focus.row) {
            FocusedField::Frequency => Some(Message::DecreaseFrequency),
            FocusedField::Volume => Some(Message::DecreaseVolume),
            FocusedField::Shape => None,
        },
        KeyInput::Esc => Some(Message::Exit),
        KeyInput::Other => None,
    }
}

/// Map a key press to the event it asks for, if any.
pub fn key_to_message(key: KeyInput, state: &SynthState) -> (r: Option<Message>)
    ensures
        r == key_message(key, *state),
{
    match key {
        KeyInput::Char(c) => {
            // Piano keys map to C..B (semitones 0-11) in the current octave
            if let Some(index) = piano_key_index(c) {
                Some(
                    Message::KeyboardKeyDown(
                        get_key_for_octave_and_semitone(state.current_octave, index),
                    ),
                )
            } else if c == 'k' {
                Some(Message::ChangeOctave(-1i32))
            } else if c == 'l' {
                Some(Message::ChangeOctave(1))
            } else if c == 'o' {
                Some(Message::ChangeSemitone(-1i32))
            } else if c == 'p' {
                Some(Message::ChangeSemitone(1))
            } else if c == '1' {
                Some(Message::SetWaveform(WaveShape::Sine))
            } else if c == '2' {
                Some(Message::SetWaveform(WaveShape::Square))
            } else if c == '3' {
                Some(Message::SetWaveform(WaveShape::Triangle))
            } else if c == '4' {
                Some(Message::SetWaveform(WaveShape::Sawtooth))
            } else if c == ' ' {
                Some(Message::TogglePlay)
            } else if c == 'q' {
                Some(Message::Exit)
            } else {
                None
            }
        },
        KeyInput::Tab => Some(Message::FocusNext),
        KeyInput::BackTab => Some(Message::FocusPrev),
        KeyInput::Up => match state.focused_field() {
            FocusedField::Frequency => Some(Message::IncreaseFrequency),
            FocusedField::Volume => Some(Message::IncreaseVolume),
            FocusedField::Shape => None,
        },
        KeyInput::Down => match state.focused_field() {
            FocusedField::Frequency => Some(Message::DecreaseFrequency),
            FocusedField::Volume => Some(Message::DecreaseVolume),
            FocusedField::Shape => None,
        },
        KeyInput::Esc => Some(Message::Exit),
        KeyInput::Other => None,
    }
}

/// Map the release of the character key `c` to the event it asks for: releasing
/// a piano key releases the play button.
pub fn released_key_message(c: char) -> (r: Option<Message>)
    ensures
        r == (if piano_key_semitone(c) is Some {
            Some(Message::ReleasePlayButton)
        } else {
            None
        }),
{
    match piano_key_index(c) {
        Some(_) => Some(Message::ReleasePlayButton),
        None => None,
    }
}

/// The semitone of a computer key is its position in the row of piano keys,
/// and the other keys play none.
pub proof fn lemma_piano_key_semitone_is_position(c: char)
    ensures
        piano_key_semitone(c) matches Some(i) ==> 0 <= i < 12 && piano_keys()[i] == c,
        piano_key_semitone(c) is None <==> !piano_keys().contains(c),
{
    if piano_key_semitone(c) is None {
        assert forall|i: int| 0 <= i < 12 implies piano_keys()[i] != c by {}
    } else {
        assert(piano_keys()[piano_key_semitone(c)->0] == c);
    }
}

/// Each piano key of the computer keyboard presses the piano key of its
/// semitone in the current octave.
pub proof fn lemma_piano_key_plays_its_semitone(i: int, s: SynthState)
    requires
        0 <= i < 12,
    ensures
        key_message(KeyInput::Char(piano_keys()[i]), s) == Some(
            Message::KeyboardKeyDown(key_at(s.current_octave as int, i)),
        ),
{
}

/// The shape `i` steps after `shape` in the cycle sine, square, triangle, sawtooth.
pub open spec fn shape_after(shape: WaveShape, i: nat) -> WaveShape
    decreases i,
{
    if i == 0 {
        shape
    } else {
        shape_after(shape, (i - 1) as nat).spec_next()
    }
}

/// The digit keys `1` to `4` select the waveforms in the order sine, square,
/// triangle, sawtooth: key `1 + i` selects the shape `i` steps after sine.
pub proof fn lemma_digit_keys_select_shapes_in_order(i: nat, s: SynthState)
    requires
        i < 4,
    ensures
        key_message(KeyInput::Char((('1' as int) + i) as char), s) == Some(
            Message::SetWaveform(shape_after(WaveShape::Sine, i)),
        ),
{
    reveal_with_fuel(shape_after, 5);
}

} // verus!
