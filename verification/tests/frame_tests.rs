use hamui::buffer::{BufCell, BufferChange, BufferWrite};
use hamui::{Frame, InputEvent, TermAction};

#[test]
fn new_frame_defaults() {
    let frame = Frame::new((80, 24));
    assert!(!frame.state.keyboard_input_mode);
    assert_eq!(frame.state.clicked, (0, 0));
    assert_eq!(frame.state.cursor_pos, (0, 0));
    assert_eq!(frame.state.min_x, 0);
    assert_eq!(frame.state.input, "");
    assert_eq!(frame.buffer.size, (80, 24));
}

// Toggling out of pointer mode makes the anchor's column the pre-toggle
// cursor column, and typing then inserts into the edit text from there.
#[test]
fn toggle_then_type_two_chars() {
    let mut frame = Frame::new((80, 24));
    frame.handle_event(InputEvent::MouseMoved(5, 2)).unwrap();
    assert_eq!(frame.state.cursor_pos, (5, 2));

    frame.handle_event(InputEvent::ToggleMode).unwrap();
    assert!(frame.state.keyboard_input_mode);
    assert_eq!(frame.state.clicked.0, 5);

    frame.handle_event(InputEvent::Char('h')).unwrap();
    frame.handle_event(InputEvent::Char('i')).unwrap();
    assert_eq!(frame.state.input, "hi");
    assert_eq!(frame.state.cursor_pos.0, frame.state.clicked.0 + 2);
}

#[test]
fn toggle_back_clears_input() {
    let mut frame = Frame::new((80, 24));
    frame.handle_event(InputEvent::ToggleMode).unwrap();
    frame.handle_event(InputEvent::Char('a')).unwrap();
    assert_eq!(frame.state.input, "a");
    frame.handle_event(InputEvent::ToggleMode).unwrap();
    assert!(!frame.state.keyboard_input_mode);
    assert_eq!(frame.state.input, "");
}

#[test]
fn typing_in_pointer_mode_is_ignored() {
    let mut frame = Frame::new((80, 24));
    let acts = frame.handle_event(InputEvent::Char('x')).unwrap();
    assert!(acts.is_empty());
    assert_eq!(frame.state.input, "");
}

#[test]
fn typed_char_is_written_to_buffer() {
    let mut frame = Frame::new((80, 24));
    frame.handle_event(InputEvent::ToggleMode).unwrap();
    frame.handle_event(InputEvent::Char('q')).unwrap();
    // the edited span is rewritten into the pending grid at the anchor
    assert_eq!(frame.buffer.vec[0][0].character, 'q');
}

// With "abc" edited and the cursor three past the anchor, backspace removes
// the last character and pulls the cursor back by one.
#[test]
fn backspace_removes_char_before_cursor() {
    let mut frame = Frame::new((80, 24));
    frame.handle_event(InputEvent::ToggleMode).unwrap();
    frame.handle_event(InputEvent::Char('a')).unwrap();
    frame.handle_event(InputEvent::Char('b')).unwrap();
    frame.handle_event(InputEvent::Char('c')).unwrap();
    let anchor = frame.state.clicked.0;
    assert_eq!(frame.state.input, "abc");
    assert_eq!(frame.state.cursor_pos.0, anchor + 3);

    frame.handle_event(InputEvent::Backspace).unwrap();
    assert_eq!(frame.state.input, "ab");
    assert_eq!(frame.state.cursor_pos.0, anchor + 2);
}

#[test]
fn backspace_in_middle_removes_left_of_cursor() {
    let mut frame = Frame::new((80, 24));
    frame.handle_event(InputEvent::ToggleMode).unwrap();
    frame.handle_event(InputEvent::Char('a')).unwrap();
    frame.handle_event(InputEvent::Char('b')).unwrap();
    frame.handle_event(InputEvent::Char('c')).unwrap();
    frame.handle_event(InputEvent::Left).unwrap();
    frame.handle_event(InputEvent::Backspace).unwrap();
    assert_eq!(frame.state.input, "ac");
}

#[test]
fn backspace_at_anchor_is_noop() {
    let mut frame = Frame::new((80, 24));
    frame.handle_event(InputEvent::MouseMoved(4, 0)).unwrap();
    frame.handle_event(InputEvent::ToggleMode).unwrap();
    frame.handle_event(InputEvent::Char('a')).unwrap();
    frame.handle_event(InputEvent::Left).unwrap();
    // the cursor is back at the anchor: nothing left of it to remove
    let acts = frame.handle_event(InputEvent::Backspace).unwrap();
    assert!(acts.is_empty());
    assert_eq!(frame.state.input, "a");
}

// A left arrow with the cursor already at the minimum column is a no-op.
#[test]
fn left_at_min_x_is_noop() {
    let mut frame = Frame::new((80, 24));
    assert_eq!(frame.state.cursor_pos.0, frame.state.min_x);
    let acts = frame.handle_event(InputEvent::Left).unwrap();
    assert!(acts.is_empty());
    assert_eq!(frame.state.cursor_pos, (0, 0));
}

#[test]
fn left_moves_cursor_back() {
    let mut frame = Frame::new((80, 24));
    frame.handle_event(InputEvent::MouseMoved(7, 3)).unwrap();
    frame.handle_event(InputEvent::Left).unwrap();
    assert_eq!(frame.state.cursor_pos, (6, 3));
}

#[test]
fn right_moves_cursor_until_side_panel() {
    let mut frame = Frame::new((60, 24));
    frame.handle_event(InputEvent::MouseMoved(8, 0)).unwrap();
    frame.handle_event(InputEvent::Right).unwrap();
    assert_eq!(frame.state.cursor_pos, (9, 0));
    // 60 - 51 = 9: the side panel boundary stops the cursor
    let acts = frame.handle_event(InputEvent::Right).unwrap();
    assert!(acts.is_empty());
    assert_eq!(frame.state.cursor_pos, (9, 0));
}

#[test]
fn check_event_rejects_right_on_narrow_window() {
    let frame = Frame::new((40, 24));
    assert!(!frame.check_event(InputEvent::Right));
    assert!(frame.check_event(InputEvent::Left));
    assert!(frame.check_event(InputEvent::Submit));
}

#[test]
fn submit_advances_edit_line() {
    let mut frame = Frame::new((80, 24));
    frame.handle_event(InputEvent::ToggleMode).unwrap();
    frame.handle_event(InputEvent::Char('x')).unwrap();
    let anchor = frame.state.clicked;
    let acts = frame.handle_event(InputEvent::Submit).unwrap();
    assert_eq!(frame.state.input, "");
    assert_eq!(frame.state.clicked, (anchor.0, anchor.1 + 1));
    assert_eq!(frame.state.cursor_pos, frame.state.clicked);
    assert_eq!(acts, vec![TermAction::Redraw]);
}

#[test]
fn submit_on_last_line_clears_screen() {
    let mut frame = Frame::new((80, 4));
    frame.handle_event(InputEvent::MouseMoved(2, 3)).unwrap();
    let acts = frame.handle_event(InputEvent::Submit).unwrap();
    assert_eq!(frame.state.cursor_pos, (0, 0));
    assert_eq!(
        acts,
        vec![TermAction::ClearScreen, TermAction::MoveCursor(0, 0), TermAction::Redraw]
    );
}

#[test]
fn mouse_click_sets_anchor_in_pointer_mode() {
    let mut frame = Frame::new((80, 24));
    let acts = frame.handle_event(InputEvent::MouseUpLeft(12, 7)).unwrap();
    assert_eq!(frame.state.clicked, (12, 7));
    assert_eq!(
        acts,
        vec![TermAction::SaveCursor, TermAction::Redraw, TermAction::RestoreCursor]
    );
}

#[test]
fn mouse_is_ignored_in_keyboard_mode() {
    let mut frame = Frame::new((80, 24));
    frame.handle_event(InputEvent::ToggleMode).unwrap();
    let before = frame.state.clicked;
    let acts = frame.handle_event(InputEvent::MouseUpLeft(12, 7)).unwrap();
    assert!(acts.is_empty());
    assert_eq!(frame.state.clicked, before);
    let acts = frame.handle_event(InputEvent::MouseMoved(3, 3)).unwrap();
    assert!(acts.is_empty());
}

#[test]
fn mouse_move_moves_cursor_in_pointer_mode() {
    let mut frame = Frame::new((80, 24));
    let acts = frame.handle_event(InputEvent::MouseMoved(33, 11)).unwrap();
    assert_eq!(frame.state.cursor_pos, (33, 11));
    assert_eq!(acts, vec![TermAction::MoveCursor(33, 11)]);
}

#[test]
fn resize_event_resizes_buffer_and_redraws() {
    let mut frame = Frame::new((80, 24));
    let acts = frame.handle_event(InputEvent::Resize(100, 30)).unwrap();
    assert_eq!(frame.buffer.size, (100, 30));
    assert_eq!(frame.buffer.vec.len(), 30);
    assert_eq!(frame.buffer.vec[0].len(), 100);
    assert_eq!(acts, vec![TermAction::ClearScreen, TermAction::Redraw]);
}

#[test]
fn quit_event_requests_teardown() {
    let mut frame = Frame::new((80, 24));
    let acts = frame.handle_event(InputEvent::Quit).unwrap();
    assert_eq!(acts, vec![TermAction::Quit]);
}

#[test]
fn step_absorbs_changes_and_commits() {
    let mut frame = Frame::new((10, 3));
    let changes = vec![
        BufferChange { loc: (0, 0), cell: BufCell::from_char('o') },
        BufferChange { loc: (1, 0), cell: BufCell::from_char('k') },
    ];
    let rows = frame.step(changes).unwrap();
    assert_eq!(rows.len(), 1);
    assert_eq!(rows[0].y, 0);
    let line: String = rows[0].text.iter().collect();
    assert_eq!(line, "ok        ");
}

#[test]
fn step_no_draw_commits_pending_writes() {
    let mut frame = Frame::new((6, 2));
    frame.buffer.write_cell((5, 1), BufCell::from_char('!')).unwrap();
    let rows = frame.step_no_draw();
    assert_eq!(rows.len(), 1);
    assert_eq!(rows[0].y, 1);
    let line: String = rows[0].text.iter().collect();
    assert_eq!(line, "     !");
}
