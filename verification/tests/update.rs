use syntherklaas::focus::FocusPosition;
use syntherklaas::message::{Effects, FrequencyChange, Message, MouseInput, MouseKind, VolumeChange};
use syntherklaas::piano::{Note, PianoKey};
use syntherklaas::state::SynthState;
use syntherklaas::update::{handle_mouse_event, semitone_at_column, update};
use syntherklaas::waveform::WaveShape;

fn quiet() -> Effects {
    Effects::none()
}

fn freq(change: FrequencyChange) -> Effects {
    Effects { frequency: change, ..Effects::none() }
}

fn vol(change: VolumeChange) -> Effects {
    Effects { volume: change, ..Effects::none() }
}

fn mouse(kind: MouseKind, column: u16) -> Message {
    Message::MouseEvent(MouseInput { kind, column })
}

#[test]
fn frequency_and_volume_steps() {
    let s = SynthState::new();
    assert_eq!(update(s, Message::IncreaseFrequency), (s, freq(FrequencyChange::StepUp)));
    assert_eq!(update(s, Message::DecreaseFrequency), (s, freq(FrequencyChange::StepDown)));
    assert_eq!(update(s, Message::IncreaseVolume), (s, vol(VolumeChange::StepUp)));
    assert_eq!(update(s, Message::DecreaseVolume), (s, vol(VolumeChange::StepDown)));
}

#[test]
fn set_waveform() {
    let (s, fx) = update(SynthState::new(), Message::SetWaveform(WaveShape::Triangle));
    assert_eq!(s.shape, WaveShape::Triangle);
    assert_eq!(fx, quiet());
}

#[test]
fn play_button() {
    let (s, fx) = update(SynthState::new(), Message::PressPlayButton);
    assert!(s.is_playing);
    assert!(!s.keep_playing);
    assert!(fx.restart_press_timer);
    let (s, fx) = update(s, Message::ReleasePlayButton);
    assert!(!s.is_playing);
    assert_eq!(fx, quiet());
}

#[test]
fn toggle_twice_restores_playing() {
    let s0 = SynthState::new();
    let (s1, fx) = update(s0, Message::TogglePlay);
    assert!(s1.is_playing && s1.keep_playing);
    assert!(fx.restart_press_timer);
    let (s2, _) = update(s1, Message::TogglePlay);
    assert!(!s2.is_playing && !s2.keep_playing);
}

#[test]
fn timeout_release() {
    let (pressed, _) = update(SynthState::new(), Message::PressPlayButton);
    let (early, _) = update(pressed, Message::CheckTimeoutRelease(100_000_000));
    assert!(early.is_playing);
    let (late, _) = update(pressed, Message::CheckTimeoutRelease(100_000_001));
    assert!(!late.is_playing);
    let (toggled, _) = update(SynthState::new(), Message::TogglePlay);
    let (held, _) = update(toggled, Message::CheckTimeoutRelease(u64::MAX));
    assert!(held.is_playing);
}

#[test]
fn focus_next_moves_down_without_wrapping() {
    let mut s = SynthState::new();
    s.focus = FocusPosition::new(0, 0);
    let (s, _) = update(s, Message::FocusNext);
    assert_eq!(s.focus, FocusPosition::new(1, 0));
    let (s, _) = update(s, Message::FocusNext);
    assert_eq!(s.focus, FocusPosition::new(2, 0));
    let mut s = s;
    s.focus = FocusPosition::new(2, 3);
    let (s, _) = update(s, Message::FocusNext);
    assert_eq!(s.focus, FocusPosition::new(2, 3));
}

#[test]
fn focus_prev_wraps_to_waveform_row() {
    let (s, _) = update(SynthState::new(), Message::FocusPrev);
    assert_eq!(s.focus, FocusPosition::new(2, 0));
    let mut s = s;
    s.focus = FocusPosition::new(2, 2);
    let (s, _) = update(s, Message::FocusPrev);
    assert_eq!(s.focus, FocusPosition::new(1, 0));
    let (s, _) = update(s, Message::FocusNext);
    assert_eq!(s.focus, FocusPosition::new(2, 0));
}

#[test]
fn arrow_moves_stay_in_grid() {
    let (s, _) = update(SynthState::new(), Message::MoveDown);
    let (s, _) = update(s, Message::MoveDown);
    let (s, _) = update(s, Message::MoveDown);
    assert_eq!(s.focus, FocusPosition::new(2, 0));
    let mut s = s;
    for _ in 0..5 {
        s = update(s, Message::MoveRight).0;
    }
    assert_eq!(s.focus, FocusPosition::new(2, 3));
    let (s, _) = update(s, Message::MoveLeft);
    assert_eq!(s.focus, FocusPosition::new(2, 2));
    let (s, _) = update(s, Message::MoveUp);
    assert_eq!(s.focus, FocusPosition::new(1, 0));
    let (s, _) = update(s, Message::MoveRight);
    assert_eq!(s.focus, FocusPosition::new(1, 0));
    let mut s = s;
    s.focus = FocusPosition::new(0, 4);
    let (s, _) = update(s, Message::MoveLeft);
    assert_eq!(s.focus, FocusPosition::new(0, 0));
}

#[test]
fn key_down_then_up() {
    let c4 = PianoKey::new(Note::C, false, 4);
    let (s, fx) = update(SynthState::new(), Message::KeyboardKeyDown(Some(c4)));
    assert_eq!(s.current_piano_key, Some(c4));
    assert!(s.is_playing);
    assert_eq!(fx, freq(FrequencyChange::ToKey(c4)));
    let (s, fx) = update(s, Message::KeyboardKeyUp);
    assert_eq!(s.current_piano_key, None);
    assert!(!s.is_playing);
    assert_eq!(fx, quiet());
    let s0 = SynthState::new();
    assert_eq!(update(s0, Message::KeyboardKeyDown(None)), (s0, quiet()));
}

#[test]
fn octave_changes_clamp() {
    let mut s = SynthState::new();
    for _ in 0..10 {
        s = update(s, Message::ChangeOctave(1)).0;
    }
    assert_eq!(s.current_octave, 8);
    s = update(s, Message::ChangeOctave(-20)).0;
    assert_eq!(s.current_octave, 0);
    s = update(s, Message::ChangeOctave(i32::MAX)).0;
    assert_eq!(s.current_octave, 8);
}

#[test]
fn semitone_changes_wrap_and_retune_a_held_key() {
    let (s, fx) = update(SynthState::new(), Message::ChangeSemitone(-1));
    assert_eq!(s.semitone_offset, 11);
    assert_eq!(fx, quiet());
    let (s, _) = update(s, Message::ChangeSemitone(1));
    assert_eq!(s.semitone_offset, 0);
    let c4 = PianoKey::new(Note::C, false, 4);
    let (held, _) = update(SynthState::new(), Message::KeyboardKeyDown(Some(c4)));
    let (s, fx) = update(held, Message::ChangeSemitone(1));
    assert_eq!(s.semitone_offset, 1);
    assert_eq!(s.current_piano_key, Some(c4));
    assert_eq!(fx, freq(FrequencyChange::ToKey(PianoKey::new(Note::C, true, 4))));
    let (back, _) = update(s, Message::ChangeSemitone(-1));
    assert_eq!(back.semitone_offset, held.semitone_offset);
}

#[test]
fn semitone_change_off_the_piano_keeps_the_frequency() {
    let mut s = SynthState::new();
    s.current_octave = 8;
    s.current_piano_key = Some(PianoKey::new(Note::C, false, 8));
    let (s, fx) = update(s, Message::ChangeSemitone(3));
    assert_eq!(s.semitone_offset, 3);
    assert_eq!(fx, quiet());
}

#[test]
fn exit() {
    let (playing, _) = update(SynthState::new(), Message::TogglePlay);
    let (s, fx) = update(playing, Message::Exit);
    assert!(s.should_exit);
    assert!(!s.is_playing);
    assert_eq!(fx, quiet());
}

#[test]
fn columns_of_the_drawn_keys() {
    assert_eq!(semitone_at_column(3), None);
    assert_eq!(semitone_at_column(4), Some(0));
    assert_eq!(semitone_at_column(6), Some(0));
    assert_eq!(semitone_at_column(7), Some(2));
    assert_eq!(semitone_at_column(14), Some(4));
    assert_eq!(semitone_at_column(15), Some(5));
    assert_eq!(semitone_at_column(22), Some(7));
    assert_eq!(semitone_at_column(23), Some(9));
    assert_eq!(semitone_at_column(31), Some(11));
    assert_eq!(semitone_at_column(32), None);
}

#[test]
fn mouse_click_plays_a_key_and_starts_a_drag() {
    let (s, fx) = update(SynthState::new(), mouse(MouseKind::Down, 25));
    let a4 = PianoKey::new(Note::A, false, 4);
    assert_eq!(s.current_piano_key, Some(a4));
    assert!(s.is_playing);
    assert!(s.mouse_dragging);
    assert_eq!(s.mouse_start_x, 25);
    assert_eq!(fx, freq(FrequencyChange::ToKey(a4)));
    let (s, fx) = update(s, mouse(MouseKind::Up, 30));
    assert!(!s.mouse_dragging);
    assert!(!s.is_playing);
    assert_eq!(s.current_piano_key, None);
    assert_eq!(fx, quiet());
}

#[test]
fn mouse_click_off_the_keys_only_starts_a_drag() {
    let (s, fx) = update(SynthState::new(), mouse(MouseKind::Down, 40));
    assert_eq!(s.current_piano_key, None);
    assert!(!s.is_playing);
    assert!(s.mouse_dragging);
    assert_eq!(s.mouse_start_x, 40);
    assert_eq!(fx, quiet());
    let mut low = SynthState::new();
    low.current_octave = 0;
    let (s, fx) = update(low, mouse(MouseKind::Down, 5));
    assert_eq!(s.current_piano_key, None);
    assert!(s.mouse_dragging);
    assert_eq!(fx, quiet());
}

#[test]
fn dragging_adjusts_the_focused_field() {
    let (s, _) = update(SynthState::new(), mouse(MouseKind::Down, 40));
    let (s, fx) = update(s, mouse(MouseKind::Drag, 43));
    assert_eq!(fx, freq(FrequencyChange::Drag(3)));
    assert_eq!(s.mouse_start_x, 43);
    let mut s = s;
    s.focus = FocusPosition::new(1, 0);
    let (s, fx) = update(s, mouse(MouseKind::Drag, 41));
    assert_eq!(fx, vol(VolumeChange::Drag(-2)));
    let mut s = s;
    s.focus = FocusPosition::new(2, 0);
    let (s, _) = update(s, mouse(MouseKind::Drag, 42));
    assert_eq!(s.shape, WaveShape::Square);
    let (s, _) = update(s, mouse(MouseKind::Drag, 40));
    let (s, _) = update(s, mouse(MouseKind::Drag, 39));
    assert_eq!(s.shape, WaveShape::Sawtooth);
    let (s, fx) = update(s, mouse(MouseKind::Drag, 39));
    assert_eq!(s.shape, WaveShape::Sawtooth);
    assert_eq!(fx, quiet());
}

#[test]
fn drag_without_a_press_does_nothing() {
    let s = SynthState::new();
    assert_eq!(update(s, mouse(MouseKind::Drag, 50)), (s, quiet()));
}

#[test]
fn scrolling_steps_the_focused_slider() {
    let s = SynthState::new();
    assert_eq!(update(s, mouse(MouseKind::ScrollUp, 0)), (s, freq(FrequencyChange::StepUp)));
    assert_eq!(update(s, mouse(MouseKind::ScrollDown, 0)), (s, freq(FrequencyChange::StepDown)));
    let mut v = s;
    v.focus = FocusPosition::new(1, 0);
    assert_eq!(update(v, mouse(MouseKind::ScrollUp, 0)), (v, vol(VolumeChange::StepUp)));
    assert_eq!(update(v, mouse(MouseKind::ScrollDown, 0)), (v, vol(VolumeChange::StepDown)));
    let mut w = s;
    w.focus = FocusPosition::new(2, 1);
    assert_eq!(update(w, mouse(MouseKind::ScrollUp, 0)), (w, quiet()));
    assert_eq!(update(s, mouse(MouseKind::Moved, 9)), (s, quiet()));
}

#[test]
fn handle_mouse_event_changes_the_state_in_place() {
    let mut s = SynthState::new();
    let fx = handle_mouse_event(&mut s, MouseInput { kind: MouseKind::Down, column: 5 });
    assert_eq!(s.current_piano_key, Some(PianoKey::new(Note::C, false, 4)));
    assert_eq!(fx, freq(FrequencyChange::ToKey(PianoKey::new(Note::C, false, 4))));
}
