use syntherklaas::focus::FocusPosition;

#[test]
fn test_new_focus_position() {
    let pos = FocusPosition::new(1, 2);
    assert_eq!(pos.row, 1);
    assert_eq!(pos.col, 2);
}

#[test]
fn test_move_up() {
    let pos = FocusPosition::new(2, 1);
    let new_pos = pos.move_up();
    assert_eq!(new_pos.row, 1);
    assert_eq!(new_pos.col, 1);
}

#[test]
fn test_move_up_clamps_to_zero() {
    let pos = FocusPosition::new(0, 0);
    let new_pos = pos.move_up();
    assert_eq!(new_pos.row, 0);
    assert_eq!(new_pos.col, 0);
}

#[test]
fn test_move_down() {
    let pos = FocusPosition::new(0, 1);
    let new_pos = pos.move_down(2);
    assert_eq!(new_pos.row, 1);
    assert_eq!(new_pos.col, 1);
}

#[test]
fn test_move_down_clamps_to_max() {
    let pos = FocusPosition::new(2, 0);
    let new_pos = pos.move_down(2);
    assert_eq!(new_pos.row, 2);
    assert_eq!(new_pos.col, 0);
}

#[test]
fn test_move_left() {
    let pos = FocusPosition::new(1, 2);
    let new_pos = pos.move_left();
    assert_eq!(new_pos.row, 1);
    assert_eq!(new_pos.col, 1);
}

#[test]
fn test_move_left_clamps_to_zero() {
    let pos = FocusPosition::new(0, 0);
    let new_pos = pos.move_left();
    assert_eq!(new_pos.row, 0);
    assert_eq!(new_pos.col, 0);
}

#[test]
fn test_move_right() {
    let pos = FocusPosition::new(2, 0);
    let new_pos = pos.move_right(3);
    assert_eq!(new_pos.row, 2);
    assert_eq!(new_pos.col, 1);
}

#[test]
fn test_move_right_clamps_to_max() {
    let pos = FocusPosition::new(2, 3);
    let new_pos = pos.move_right(3);
    assert_eq!(new_pos.row, 2);
    assert_eq!(new_pos.col, 3);
}

#[test]
fn test_is_on_slider_frequency() {
    let pos = FocusPosition::new(0, 0);
    assert!(pos.is_on_slider());
}

#[test]
fn test_is_on_slider_volume() {
    let pos = FocusPosition::new(1, 0);
    assert!(pos.is_on_slider());
}

#[test]
fn test_is_on_waveform() {
    let pos = FocusPosition::new(2, 1);
    assert!(pos.is_on_waveform());
}

#[test]
fn test_is_on_slider_returns_false_for_waveform() {
    let pos = FocusPosition::new(2, 0);
    assert!(!pos.is_on_slider());
}

#[test]
fn test_is_on_waveform_returns_false_for_sliders() {
    let pos = FocusPosition::new(0, 0);
    assert!(!pos.is_on_waveform());
}

#[test]
fn moves_away_from_edges_undo_each_other() {
    let pos = FocusPosition::new(1, 1);
    assert_eq!(pos.move_down(2).move_up(), pos);
    assert_eq!(pos.move_up().move_down(2), pos);
    assert_eq!(pos.move_right(3).move_left(), pos);
    assert_eq!(pos.move_left().move_right(3), pos);
}

#[test]
fn moves_at_edges_do_not_undo_each_other() {
    let top = FocusPosition::new(0, 0);
    assert_eq!(top.move_up().move_down(2), FocusPosition::new(1, 0));
    let bottom = FocusPosition::new(2, 3);
    assert_eq!(bottom.move_down(2).move_up(), FocusPosition::new(1, 3));
}

#[test]
fn move_down_beyond_max_row_falls_back_to_max() {
    let pos = FocusPosition::new(5, 1);
    assert_eq!(pos.move_down(2), FocusPosition::new(2, 1));
    assert_eq!(pos.move_right(0), FocusPosition::new(5, 0));
}

#[test]
fn rows_beyond_the_grid_are_neither_slider_nor_waveform() {
    let pos = FocusPosition::new(3, 0);
    assert!(!pos.is_on_slider());
    assert!(!pos.is_on_waveform());
}
