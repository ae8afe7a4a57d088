//! The synthesizer's state machine: from a state and an event to the next
//! state and the change of the tone that the event asks for.
use vstd::prelude::*;
use crate::focus::FocusPosition;
use crate::message::{Effects, FrequencyChange, Message, MouseInput, MouseKind, VolumeChange, no_effects};
use crate::piano::{get_key_for_octave_and_semitone, key_at};
use crate::state::{
    FocusedField, LAST_ROW, LAST_WAVEFORM_COL, PLAY_TIMEOUT_NANOS, SynthState, field_of_row,
    last_col_of_row,
};

verus! {

/// The semitone (0 = C ... 11 = B) of the white piano key drawn at terminal
/// column `col`, or `None` off the keyboard. The keys are drawn four columns
/// wide, the first answering at columns 4 to 6, the last one up to column 31.
pub open spec fn column_semitone(col: int) -> Option<int> {
    if 4 <= col <= 6 {
        Some(0)
    } else if 7 <= col <= 10 {
        Some(2)
    } else if 11 <= col <= 14 {
        Some(4)
    } else if 15 <= col <= 18 {
        Some(5)
    } else if 19 <= col <= 22 {
        Some(7)
    } else if 23 <= col <= 26 {
        Some(9)
    } else if 27 <= col <= 31 {
        Some(11)
    } else {
        None
    }
}

/// A terminal column read as a signed 16-bit number (two's complement).
pub open spec fn column_as_i16(col: u16) -> int {
    if col <= 32767 {
        col as int
    } else {
        col - 65536
    }
}

/// The number of columns the mouse moved while dragging, from `start` to `col`.
pub open spec fn drag_delta(col: u16, start: u16) -> int {
    column_as_i16(col) - column_as_i16(start)
}

/// Whether a drag from `start` to `col` moved a number of columns that fits an `i16`.
pub open spec fn drag_fits(col: u16, start: u16) -> bool {
    i16::MIN <= drag_delta(col, start) <= i16::MAX
}

/// The octave `octave + delta`, clamped to the piano's octaves 0 to 8.
pub open spec fn shifted_octave(octave: i32, delta: i32) -> int {
    let o = octave + delta;
    if o < 0 {
        0
    } else if o > 8 {
        8
    } else {
        o
    }
}

/// The semitone offset `offset + delta`, modulo 12.
pub open spec fn shifted_semitone(offset: i32, delta: i32) -> int {
    (offset + delta) % 12
}

/// The focus after moving to the next field: down one row, to its first
/// column; on the last row it stays where it is.
pub open spec fn focus_next(f: FocusPosition) -> FocusPosition {
    if f.row < LAST_ROW {
        FocusPosition { col: 0, ..f.spec_down(LAST_ROW) }
    } else {
        f.spec_down(LAST_ROW)
    }
}

/// The focus after moving to the previous field: up one row, to its first
/// column; from the first row it wraps round to the waveform row.
pub open spec fn focus_prev(f: FocusPosition) -> FocusPosition {
    if f.row > 0 {
        FocusPosition { col: 0, ..f.spec_up() }
    } else {
        FocusPosition { row: LAST_ROW, col: 0 }
    }
}

/// The focus after moving left, kept within the last column of its row.
pub open spec fn focus_left(f: FocusPosition) -> FocusPosition {
    let l = f.spec_left();
    if l.col > last_col_of_row(f.row) {
        FocusPosition { col: last_col_of_row(f.row), ..l }
    } else {
        l
    }
}

/// What a mouse event does to the state and the tone.
pub open spec fn mouse_transition(s: SynthState, m: MouseInput) -> (SynthState, Effects) {
    match m.kind {
        MouseKind::Down => {
            let (pressed, fx) = match column_semitone(m.column as int) {
                Some(st) => match key_at(s.current_octave as int, st) {
                    Some(k) => (
                        SynthState { current_piano_key: Some(k), is_playing: true, ..s },
                        Effects { frequency: FrequencyChange::ToKey(k), ..no_effects() },
                    ),
                    None => (s, no_effects()),
                },
                None => (s, no_effects()),
            };
            (SynthState { mouse_dragging: true, mouse_start_x: m.column, ..pressed }, fx)
        },
        MouseKind::Up => (
            SynthState {
                mouse_dragging: false,
                current_piano_key: None,
                is_playing: false,
                ..s
            },
            no_effects(),
        ),
        MouseKind::Drag => {
            if !s.mouse_dragging {
                (s, no_effects())
            } else {
                let d = drag_delta(m.column, s.mouse_start_x);
                let moved = SynthState { mouse_start_x: m.column, ..s };
                match field_of_row(s.focus.row) {
                    FocusedField::Frequency => (
                        moved,
                        Effects { frequency: FrequencyChange::Drag(d as i16), ..no_effects() },
                    ),
                    FocusedField::Volume => (
                        moved,
                        Effects { volume: VolumeChange::Drag(d as i16), ..no_effects() },
                    ),
                    FocusedField::Shape => {
                        if d > 0 {
                            (SynthState { shape: s.shape.spec_next(), ..moved }, no_effects())
                        } else if d < 0 {
                            (SynthState { shape: s.shape.spec_prev(), ..moved }, no_effects())
                        } else {
                            (moved, no_effects())
                        }
                    },
                }
            }
        },
        MouseKind::ScrollUp => match field_of_row(s.focus.row) {
            FocusedField::Frequency => (
                s,
                Effects { frequency: FrequencyChange::StepUp, ..no_effects() },
            ),
            FocusedField::Volume => (s, Effects { volume: VolumeChange::StepUp, ..no_effects() }),
            FocusedField::Shape => (s, no_effects()),
        },
        MouseKind::ScrollDown => match field_of_row(s.focus.row) {
            FocusedField::Frequency => (
                s,
                Effects { frequency: FrequencyChange::StepDown, ..no_effects() },
            ),
            FocusedField::Volume => (s, Effects { volume: VolumeChange::StepDown, ..no_effects() }),
            FocusedField::Shape => (s, no_effects()),
        },
        _ => (s, no_effects()),
    }
}

/// What an event does to the state and the tone.
pub open spec fn transition(s: SynthState, msg: Message) -> (SynthState, Effects) {
    match msg {
        Message::IncreaseFrequency => (
            s,
            Effects { frequency: FrequencyChange::StepUp, ..no_effects() },
        ),
        Message::DecreaseFrequency => (
            s,
            Effects { frequency: FrequencyChange::StepDown, ..no_effects() },
        ),
        Message::IncreaseVolume => (s, Effects { volume: VolumeChange::StepUp, ..no_effects() }),
        Message::DecreaseVolume => (s, Effects { volume: VolumeChange::StepDown, ..no_effects() }),
        Message::SetWaveform(shape) => (SynthState { shape, ..s }, no_effects()),
        Message::PressPlayButton => (
            SynthState { is_playing: true, ..s },
            Effects { restart_press_timer: true, ..no_effects() },
        ),
        Message::ReleasePlayButton => (SynthState { is_playing: false, ..s }, no_effects()),
        Message::TogglePlay => (
            SynthState { is_playing: !s.is_playing, keep_playing: !s.is_playing, ..s },
            Effects { restart_press_timer: true, ..no_effects() },
        ),
        Message::FocusNext => (SynthState { focus: focus_next(s.focus), ..s }, no_effects()),
        Message::FocusPrev => (SynthState { focus: focus_prev(s.focus), ..s }, no_effects()),
        Message::MoveUp => (
            SynthState { focus: FocusPosition { col: 0, ..s.focus.spec_up() }, ..s },
            no_effects(),
        ),
        Message::MoveDown => (
            SynthState { focus: FocusPosition { col: 0, ..s.focus.spec_down(LAST_ROW) }, ..s },
            no_effects(),
        ),
        Message::MoveLeft => (SynthState { focus: focus_left(s.focus), ..s }, no_effects()),
        Message::MoveRight => (
            SynthState { focus: s.focus.spec_right(last_col_of_row(s.focus.row)), ..s },
            no_effects(),
        ),
        Message::KeyboardKeyDown(key_option) => match key_option {
            Some(k) => (
                SynthState { current_piano_key: Some(k), is_playing: true, ..s },
                Effects { frequency: FrequencyChange::ToKey(k), ..no_effects() },
            ),
            None => (s, no_effects()),
        },
        Message::KeyboardKeyUp => (
            SynthState { current_piano_key: None, is_playing: false, ..s },
            no_effects(),
        ),
        Message::ChangeOctave(delta) => (
            SynthState { current_octave: shifted_octave(s.current_octave, delta) as i32, ..s },
            no_effects(),
        ),
        Message::ChangeSemitone(delta) => {
            let offset = shifted_semitone(s.semitone_offset, delta);
            let shifted = SynthState { semitone_offset: offset as i32, ..s };
            if s.current_piano_key is Some {
                match key_at(s.current_octave as int, offset) {
                    Some(k) => (shifted, Effects { frequency: FrequencyChange::ToKey(k), ..no_effects() }),
                    None => (shifted, no_effects()),
                }
            } else {
                (shifted, no_effects())
            }
        },
        Message::CheckTimeoutRelease(elapsed) => {
            if !s.keep_playing && s.is_playing && elapsed > PLAY_TIMEOUT_NANOS {
                (SynthState { is_playing: false, ..s }, no_effects())
            } else {
                (s, no_effects())
            }
        },
        Message::MouseEvent(m) => mouse_transition(s, m),
        Message::Exit => (SynthState { is_playing: false, should_exit: true, ..s }, no_effects()),
    }
}

/// The events that the state machine can take in state `s` without an
/// arithmetic overflow: every event but a few on extreme values.
pub open spec fn accepts(s: SynthState, msg: Message) -> bool {
    match msg {
        Message::FocusNext => s.focus.row < usize::MAX,
        Message::MoveDown => s.focus.row < usize::MAX,
        Message::MoveRight => s.focus.col < usize::MAX,
        Message::ChangeOctave(delta) => i32::MIN <= s.current_octave + delta <= i32::MAX,
        Message::ChangeSemitone(delta) => i32::MIN <= s.semitone_offset + delta <= i32::MAX,
        Message::MouseEvent(m) => mouse_accepts(s, m),
        _ => true,
    }
}

/// The mouse events that the state machine can take in state `s`: a drag must
/// move a number of columns that fits an `i16`.
pub open spec fn mouse_accepts(s: SynthState, m: MouseInput) -> bool {
    (m.kind == MouseKind::Drag && s.mouse_dragging) ==> drag_fits(m.column, s.mouse_start_x)
}

/// The semitone of the white piano key drawn at terminal column `col`.
pub fn semitone_at_column(col: u16) -> (r: Option<i32>)
    ensures
        r matches Some(st) ==> column_semitone(col as int) == Some(st as int),
        r is None <==> column_semitone(col as int) is None,
{
    if 4 <= col && col <= 31 {
        if col <= 6 {
            Some(0)
        } else if col <= 10 {
            Some(2)
        } else if col <= 14 {
            Some(4)
        } else if col <= 18 {
            Some(5)
        } else if col <= 22 {
            Some(7)
        } else if col <= 26 {
            Some(9)
        } else {
            Some(11)
        }
    } else {
        None
    }
}

/// Whether a drag from `start` to `col` moved a number of columns that fits an `i16`.
pub fn drag_fits_columns(col: u16, start: u16) -> (r: bool)
    ensures
        r == drag_fits(col, start),
{
    let delta = column_i32(col) - column_i32(start);
    -32768 <= delta && delta <= 32767
}

fn column_i32(col: u16) -> (r: i32)
    ensures
        r == column_as_i16(col),
{
    if col <= 32767 {
        col as i32
    } else {
        col as i32 - 65536
    }
}

/// Apply a mouse event to the state; return the change of the tone it asks for.
pub fn handle_mouse_event(state: &mut SynthState, mouse: MouseInput) -> (fx: Effects)
    requires
        mouse_accepts(*old(state), mouse),
    ensures
        (*final(state), fx) == mouse_transition(*old(state), mouse),
{
    let mut fx = Effects::none();
    match mouse.kind {
        MouseKind::Down => {
            // Detect which piano key was clicked
            if let Some(st) = semitone_at_column(mouse.column) {
                if let Some(key) = get_key_for_octave_and_semitone(state.current_octave, st) {
                    state.current_piano_key = Some(key);
                    fx.frequency = FrequencyChange::ToKey(key);
                    state.is_playing = true;
                }
            }
            state.mouse_dragging = true;
            state.mouse_start_x = mouse.column;
        },
        MouseKind::Up => {
            state.mouse_dragging = false;
            state.current_piano_key = None;
            state.is_playing = false;
        },
        MouseKind::Drag => {
            if !state.mouse_dragging {
                return fx;
            }
            let wide = column_i32(mouse.column) - column_i32(state.mouse_start_x);
            let delta = wide as i16;
            state.mouse_start_x = mouse.column;
            match state.focused_field() {
                FocusedField::Frequency => {
                    fx.frequency = FrequencyChange::Drag(delta);
                },
                FocusedField::Volume => {
                    fx.volume = VolumeChange::Drag(delta);
                },
                FocusedField::Shape => {
                    if delta > 0 {
                        state.shape = state.shape.next();
                    } else if delta < 0 {
                        state.shape = state.shape.prev();
                    }
                },
            }
        },
        MouseKind::ScrollUp => match state.focused_field() {
            FocusedField::Frequency => {
                fx.frequency = FrequencyChange::StepUp;
            },
            FocusedField::Volume => {
                fx.volume = VolumeChange::StepUp;
            },
            FocusedField::Shape => {},
        },
        MouseKind::ScrollDown => match state.focused_field() {
            FocusedField::Frequency => {
                fx.frequency = FrequencyChange::StepDown;
            },
            FocusedField::Volume => {
                fx.volume = VolumeChange::StepDown;
            },
            FocusedField::Shape => {},
        },
        _ => {},
    }
    fx
}

/// Apply an event to the state: return the next state and the change of the
/// tone that the event asks for.
pub fn update(state: SynthState, msg: Message) -> (r: (SynthState, Effects))
    requires
        accepts(state, msg),
    ensures
        r == transition(state, msg),
{
    let mut state = state;
    let mut fx = Effects::none();
    match msg {
        Message::IncreaseFrequency => {
            fx.frequency = FrequencyChange::StepUp;
        },
        Message::DecreaseFrequency => {
            fx.frequency = FrequencyChange::StepDown;
        },
        Message::IncreaseVolume => {
            fx.volume = VolumeChange::StepUp;
        },
        Message::DecreaseVolume => {
            fx.volume = VolumeChange::StepDown;
        },
        Message::SetWaveform(shape) => {
            state.shape = shape;
        },
        Message::PressPlayButton => {
            state.is_playing = true;
            fx.restart_press_timer = true;
        },
        Message::ReleasePlayButton => {
            state.is_playing = false;
        },
        Message::TogglePlay => {
            let new_state = !state.is_playing;
            state.is_playing = new_state;
            state.keep_playing = new_state;
            fx.restart_press_timer = true;
        },
        Message::FocusNext => {
            // Move down one row; at the bottom, stay there
            if state.focus.row < LAST_ROW {
                state.focus = state.focus.move_down(LAST_ROW);
                // Reset column to 0 when moving to a new row
                state.focus.col = 0;
            } else {
                state.focus = state.focus.move_down(LAST_ROW);
            }
        },
        Message::FocusPrev => {
            // Move up one row, wrapping from row 0 to the waveform row
            if state.focus.row > 0 {
                state.focus = state.focus.move_up();
                state.focus.col = 0;
            } else {
                state.focus = FocusPosition::new(LAST_ROW, 0);
            }
        },
        Message::MoveUp => {
            state.focus = state.focus.move_up();
            state.focus.col = 0;
        },
        Message::MoveDown => {
            state.focus = state.focus.move_down(LAST_ROW);
            state.focus.col = 0;
        },
        Message::MoveLeft => {
            let max_col = if state.focus.row == LAST_ROW {
                LAST_WAVEFORM_COL
            } else {
                0
            };
            state.focus = state.focus.move_left();
            if state.focus.col > max_col {
                state.focus.col = max_col;
            }
        },
        Message::MoveRight => {
            let max_col = if state.focus.row == LAST_ROW {
                LAST_WAVEFORM_COL
            } else {
                0
            };
            state.focus = state.focus.move_right(max_col);
        },
        Message::KeyboardKeyDown(key_option) => {
            if let Some(key) = key_option {
                state.current_piano_key = Some(key);
                fx.frequency = FrequencyChange::ToKey(key);
                state.is_playing = true;
            }
        },
        Message::KeyboardKeyUp => {
            state.current_piano_key = None;
            state.is_playing = false;
        },
        Message::ChangeOctave(delta) => {
            let o = state.current_octave + delta;
            state.current_octave = if o < 0 {
                0
            } else if o > 8 {
                8
            } else {
                o
            };
        },
        Message::ChangeSemitone(delta) => {
            let sum = state.semitone_offset + delta;
            state.semitone_offset = match sum.checked_rem_euclid(12) {
                Some(v) => v,
                None => 0,
            };
            // If a key is currently pressed, sound the key at the new offset
            if state.current_piano_key.is_some() {
                if let Some(new_key) = get_key_for_octave_and_semitone(
                    state.current_octave,
                    state.semitone_offset,
                ) {
                    fx.frequency = FrequencyChange::ToKey(new_key);
                }
            }
        },
        Message::CheckTimeoutRelease(elapsed) => {
            if !state.keep_playing && state.is_playing && elapsed > PLAY_TIMEOUT_NANOS {
                state.is_playing = false;
            }
        },
        Message::MouseEvent(mouse) => {
            fx = handle_mouse_event(&mut state, mouse);
        },
        Message::Exit => {
            state.is_playing = false;
            state.should_exit = true;
        },
    }
    (state, fx)
}

/// Every event keeps the state's invariant: the focus stays in the grid, the
/// octave on the piano and the semitone offset within an octave.
pub proof fn lemma_transition_keeps_wf(s: SynthState, msg: Message)
    requires
        s.wf(),
        accepts(s, msg),
    ensures
        transition(s, msg).0.wf(),
{
}

/// A state that keeps the invariant takes every event but an octave or semitone
/// change by an amount near the limits of `i32`, or a drag of more than `i16` columns.
pub proof fn lemma_wf_accepts(s: SynthState, msg: Message)
    requires
        s.wf(),
        msg matches Message::ChangeOctave(d) ==> d <= i32::MAX - 8,
        msg matches Message::ChangeSemitone(d) ==> d <= i32::MAX - 11,
        msg matches Message::MouseEvent(m) ==> mouse_accepts(s, m),
    ensures
        accepts(s, msg),
{
}

/// Toggling play twice restores whether the synthesizer plays; after a toggle
/// the sound is held on exactly when it plays.
pub proof fn lemma_toggle_twice(s: SynthState)
    ensures
        transition(s, Message::TogglePlay).0.keep_playing == transition(s, Message::TogglePlay).0.is_playing,
        transition(transition(s, Message::TogglePlay).0, Message::TogglePlay).0.is_playing == s.is_playing,
{
}

/// Releasing a piano key after pressing it silences the synthesizer and leaves no key pressed.
pub proof fn lemma_key_down_then_up(s: SynthState, key: Option<crate::piano::PianoKey>)
    ensures
        !transition(transition(s, Message::KeyboardKeyDown(key)).0, Message::KeyboardKeyUp).0.is_playing,
        transition(transition(s, Message::KeyboardKeyDown(key)).0, Message::KeyboardKeyUp).0.current_piano_key
            is None,
{
}

/// Shifting the semitone offset by `d` and then by `-d` restores it.
pub proof fn lemma_semitone_shift_undone(s: SynthState, d: i32)
    requires
        s.wf(),
        -i32::MAX <= d <= i32::MAX - 11,
    ensures
        transition(transition(s, Message::ChangeSemitone(d)).0, Message::ChangeSemitone(-d as i32)).0.semitone_offset
            == s.semitone_offset,
{
    let o = s.semitone_offset as int;
    let m = (o + d) % 12;
    assert((m - d) % 12 == o) by (nonlinear_arith)
        requires
            0 <= o < 12,
            m == (o + d) % 12,
    ;
}

/// Moving to the previous field undoes moving to the next one, away from the
/// last row; the column returns to the first.
pub proof fn lemma_focus_prev_undoes_next(f: FocusPosition)
    requires
        f.row < LAST_ROW,
    ensures
        focus_prev(focus_next(f)) == (FocusPosition { row: f.row, col: 0 }),
{
}

/// Moving to the next field undoes moving to the previous one, away from the
/// first row (from which the previous field wraps round to the last).
pub proof fn lemma_focus_next_undoes_prev(f: FocusPosition)
    requires
        0 < f.row <= LAST_ROW,
    ensures
        focus_next(focus_prev(f)) == (FocusPosition { row: f.row, col: 0 }),
{
}

/// The timeout never stops a sound that was toggled on, nor one pressed less
/// than the timeout ago.
pub proof fn lemma_timeout_spares_held_sound(s: SynthState, elapsed: u64)
    requires
        s.keep_playing || elapsed <= PLAY_TIMEOUT_NANOS,
    ensures
        transition(s, Message::CheckTimeoutRelease(elapsed)).0 == s,
{
}

/// Every key that the octave, semitone and mouse controls choose themselves
/// lies on the piano, between A0 and C8, and is written canonically.
pub proof fn lemma_chosen_keys_on_piano(s: SynthState, msg: Message)
    requires
        !(msg is KeyboardKeyDown),
    ensures
        transition(s, msg).1.frequency matches FrequencyChange::ToKey(k) ==> {
            &&& k.is_canonical()
            &&& crate::piano::lowest_key_offset() <= k.offset_from_a4() <= crate::piano::highest_key_offset()
        },
{
    match msg {
        Message::ChangeSemitone(d) => {
            crate::piano::lemma_key_at_is_requested_key(s.current_octave as int, shifted_semitone(s.semitone_offset, d));
            crate::piano::lemma_key_at_range(s.current_octave as int, shifted_semitone(s.semitone_offset, d));
        },
        Message::MouseEvent(m) => {
            if let Some(st) = column_semitone(m.column as int) {
                crate::piano::lemma_key_at_is_requested_key(s.current_octave as int, st);
                crate::piano::lemma_key_at_range(s.current_octave as int, st);
            }
        },
        _ => {},
    }
}

/// The octave control moves the octave by exactly the requested number of
/// octaves, and stops at the piano's lowest and highest octaves, 0 and 8: one
/// step up from octave `o < 8` gives `o + 1`, one step down from `o > 0` gives `o - 1`.
pub proof fn lemma_octave_moves_by_delta(s: SynthState, d: i32)
    requires
        accepts(s, Message::ChangeOctave(d)),
    ensures
        0 <= s.current_octave + d <= 8 ==> transition(s, Message::ChangeOctave(d)).0.current_octave
            == s.current_octave + d,
        s.current_octave + d < 0 ==> transition(s, Message::ChangeOctave(d)).0.current_octave == 0,
        s.current_octave + d > 8 ==> transition(s, Message::ChangeOctave(d)).0.current_octave == 8,
        0 <= s.current_octave < 8 ==> transition(s, Message::ChangeOctave(1)).0.current_octave
            == s.current_octave + 1,
        0 < s.current_octave <= 8 ==> transition(s, Message::ChangeOctave(-1i32)).0.current_octave
            == s.current_octave - 1,
        transition(s, Message::ChangeOctave(d)).0 == (SynthState {
            current_octave: transition(s, Message::ChangeOctave(d)).0.current_octave,
            ..s
        }),
{
}

/// Whether `p` is the semitone of a white key (a note without a sharp).
pub open spec fn is_white_semitone(p: int) -> bool {
    p == crate::piano::Note::C.semitone() || p == crate::piano::Note::D.semitone()
        || p == crate::piano::Note::E.semitone() || p == crate::piano::Note::F.semitone()
        || p == crate::piano::Note::G.semitone() || p == crate::piano::Note::A.semitone()
        || p == crate::piano::Note::B.semitone()
}

/// How many white keys of an octave lie below semitone `p`.
pub open spec fn white_keys_below(p: int) -> int {
    (if crate::piano::Note::C.semitone() < p { 1int } else { 0int })
        + (if crate::piano::Note::D.semitone() < p { 1int } else { 0int })
        + (if crate::piano::Note::E.semitone() < p { 1int } else { 0int })
        + (if crate::piano::Note::F.semitone() < p { 1int } else { 0int })
        + (if crate::piano::Note::G.semitone() < p { 1int } else { 0int })
        + (if crate::piano::Note::A.semitone() < p { 1int } else { 0int })
        + (if crate::piano::Note::B.semitone() < p { 1int } else { 0int })
}

/// The drawn keyboard has seven white keys: the `i`-th covers columns `3 + 4 * i`
/// to `6 + 4 * i`, except that column 3 answers no click and the last key reaches
/// to column 31. A click in the `i`-th key's columns
/// selects the `i`-th white key of the octave, the one with `i` white keys below
/// it; every column of one drawn key selects the same key, and clicks outside
/// columns 4 to 31 select none.
pub proof fn lemma_columns_select_drawn_keys(col: int)
    ensures
        (4 <= col <= 31) == (column_semitone(col) is Some),
        4 <= col <= 31 ==> ({
            let i = if (col - 3) / 4 < 6 { (col - 3) / 4 } else { 6 };
            &&& column_semitone(col) matches Some(p) && is_white_semitone(p) && white_keys_below(p) == i
        }),
{
    if 4 <= col <= 31 {
        let q = (col - 3) / 4;
        assert(0 <= col - 3 - 4 * q < 4) by (nonlinear_arith)
            requires
                q == (col - 3) / 4,
                col >= 4,
        ;
        if col <= 6 {
            assert(q == 0);
        } else if col <= 10 {
            assert(q == 1);
        } else if col <= 14 {
            assert(q == 2);
        } else if col <= 18 {
            assert(q == 3);
        } else if col <= 22 {
            assert(q == 4);
        } else if col <= 26 {
            assert(q == 5);
        } else {
            assert(q >= 5);
        }
    }
}

} // verus!
