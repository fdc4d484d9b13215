use hamui::buffer::{BufCell, BufferChange, PseudoBuffer};
use hamui::text::{repeat_char, string_insert_char, string_remove_char};
use hamui::drawing::{
    check_click, get_center, Clickable, Component, Creatable, DownwardsLine, QuickBox, QuickRow,
    RectBoundary, StatusLine, Text, TextBackgroundColor, TextColor, TextCommand, TextLeaf,
};
use hamui::State;

fn change_str(changes: &[BufferChange]) -> String {
    changes.iter().map(|c| c.cell.character).collect()
}

#[test]
fn center_of_window() {
    assert_eq!(get_center((10, 10), (4, 2)), (3, 4));
    assert_eq!(get_center((80, 24), (0, 0)), (40, 12));
}

#[test]
fn click_inside_and_outside() {
    let rect = RectBoundary { pos: (2, 3), size: (4, 2) };
    let mut state = State {
        window_size: (80, 24),
        keyboard_input_mode: false,
        clicked: (2, 3),
        input: String::new(),
        cursor_pos: (0, 0),
        min_x: 0,
    };
    assert!(check_click(&state, rect));
    state.clicked = (5, 4);
    assert!(check_click(&state, rect));
    state.clicked = (6, 4); // just past the right edge
    assert!(!check_click(&state, rect));
    state.clicked = (1, 3);
    assert!(!check_click(&state, rect));
    state.clicked = (3, 5);
    assert!(!check_click(&state, rect));
}

#[test]
fn on_click_runs_transition_only_inside() {
    let rect = RectBoundary { pos: (0, 0), size: (3, 3) };
    let state = State {
        window_size: (80, 24),
        keyboard_input_mode: false,
        clicked: (1, 1),
        input: String::new(),
        cursor_pos: (0, 0),
        min_x: 0,
    };
    let mut text = Text::new(PseudoBuffer::new((80, 24)));
    let state = text.on_click(rect, state, |mut s: State| {
        s.min_x = 9;
        s
    });
    assert_eq!(state.min_x, 9);

    let mut outside = state;
    outside.clicked = (7, 7);
    let outside = text.on_click(rect, outside, |mut s: State| {
        s.min_x = 42;
        s
    });
    assert_eq!(outside.min_x, 9);
}

#[test]
fn downwards_line_writes_column() {
    let mut buffer = PseudoBuffer::new((20, 20));
    let rect = DownwardsLine::new(&mut buffer, 3, (2, 1), "|", "L");
    assert_eq!(rect.pos, (2, 1));
    assert_eq!(rect.size, (1, 3));
    let changes = buffer.get_changes();
    assert_eq!(changes.len(), 3);
    assert_eq!(changes[0].loc, (2, 1));
    assert_eq!(changes[0].cell.character, '|');
    assert_eq!(changes[1].loc, (2, 2));
    assert_eq!(changes[1].cell.character, '|');
    assert_eq!(changes[2].loc, (2, 3));
    assert_eq!(changes[2].cell.character, 'L');
}

#[test]
fn quick_box_draws_frame() {
    let mut qbox = QuickBox::new(PseudoBuffer::new((40, 12)));
    let (rect, changes) = qbox
        .render((40, 12), RectBoundary { pos: (1, 1), size: (4, 3) })
        .unwrap();
    assert_eq!(rect.pos, (1, 1));
    assert_eq!(rect.size, (4, 3));
    // top: ╭──╮ at (1..5, 1); sides at x=1 and x=4; bottom ── at (2..4, 4)
    assert_eq!(change_str(&changes), "╭──╮││╰││╯──");
    assert_eq!(changes[0].loc, (1, 1));
    assert_eq!(changes[3].loc, (4, 1));
    assert_eq!(changes[4].loc, (1, 2)); // left side, first row
    assert_eq!(changes[6].loc, (1, 4)); // left corner
    assert_eq!(changes[7].loc, (4, 2)); // right side, first row
    assert_eq!(changes[9].loc, (4, 4)); // right corner
    assert_eq!(changes[10].loc, (2, 4)); // bottom line
    assert_eq!(changes[11].loc, (3, 4));
}

#[test]
fn quick_box_clips_height_to_window() {
    let mut qbox = QuickBox::new(PseudoBuffer::new((40, 5)));
    let (rect, _) = qbox
        .render((40, 5), RectBoundary { pos: (0, 0), size: (6, 9) })
        .unwrap();
    assert_eq!(rect.size, (6, 5));
}

#[test]
fn text_render_writes_at_position() {
    let mut text = Text::new(PseudoBuffer::new((30, 10)));
    let (rect, changes) = text.render(TextLeaf::plain("ab".to_string()), (3, 4)).unwrap();
    assert_eq!(rect.pos, (3, 4));
    assert_eq!(rect.size, (2, 1));
    assert_eq!(changes.len(), 2);
    assert_eq!(changes[0].loc, (3, 4));
    assert_eq!(changes[0].cell.character, 'a');
    assert_eq!(changes[1].loc, (4, 4));
    assert_eq!(changes[1].cell.character, 'b');
}

#[test]
fn text_render_center_offsets_by_parent() {
    let mut text = Text::new(PseudoBuffer::new((30, 10)));
    let (rect, changes) = text
        .render_center(TextLeaf::plain("hey".to_string()), (2, 1), 10)
        .unwrap();
    // centered: 10/2 - 3/2 = 4, offset by pos.0 = 2
    assert_eq!(changes[0].loc, (6, 1));
    assert_eq!(change_str(&changes), "hey");
    assert_eq!(rect.pos, (2, 1));
    assert_eq!(rect.size, (3, 1));
}

#[test]
fn text_render_button_wraps_in_escapes() {
    let mut text = Text::new(PseudoBuffer::new((80, 10)));
    let (rect, changes) = text.render_button(TextLeaf::plain("go".to_string()), (0, 0)).unwrap();
    assert_eq!(change_str(&changes), "\x1b[107;30m➚ go\x1b[0m");
    // one cell per character, at consecutive columns
    for (i, c) in changes.iter().enumerate() {
        assert_eq!(c.loc, (i as u16, 0));
    }
    assert_eq!(rect.size, (2, 1));
}

#[test]
fn status_line_spans_row() {
    let mut line = StatusLine::new(PseudoBuffer::new((10, 4)));
    let (rect, changes) = line
        .render((10, 4), RectBoundary { pos: (0, 2), size: (6, 1) })
        .unwrap();
    assert_eq!(rect.pos, (0, 2));
    assert_eq!(rect.size, (10, 1));
    assert_eq!(change_str(&changes), "\x1b[107;30m      \x1b[0m");
    // the six spaces overwrite the escape prefix cells on replay
    assert_eq!(changes[9].loc, (0, 2));
    assert_eq!(changes[14].loc, (5, 2));
    // the reset escape starts just past the right edge
    assert_eq!(changes[15].loc, (6, 2));
}

#[test]
fn quick_row_lays_items_side_by_side() {
    let mut row = QuickRow::new(PseudoBuffer::new((40, 4)));
    let items = vec![
        (TextLeaf::plain("ab".to_string()), (1, 0)),
        (TextLeaf::plain("cde".to_string()), (0, 0)),
    ];
    let (rect, changes) = row
        .render(RectBoundary { pos: (0, 0), size: (40, 1) }, items)
        .unwrap();
    assert_eq!(rect.pos, (0, 0));
    assert_eq!(change_str(&changes), "abcde");
    // first item at its own offset; second starts at the first's right edge
    assert_eq!(changes[0].loc, (1, 0));
    assert_eq!(changes[1].loc, (2, 0));
    assert_eq!(changes[2].loc, (3, 0));
    assert_eq!(changes[3].loc, (4, 0));
    assert_eq!(changes[4].loc, (5, 0));
}

#[test]
fn text_leaf_new_wraps_in_color_escapes() {
    let leaf = TextLeaf::new("hi".to_string(), TextColor::Red, TextBackgroundColor::Black);
    assert_eq!(leaf.text, "\x1b[31;40mhi\x1b[0m");
    let bright = TextLeaf::new(
        "x".to_string(),
        TextColor::BrightWhite,
        TextBackgroundColor::BrightCyan,
    );
    assert_eq!(bright.text, "\x1b[97;106mx\x1b[0m");
}

#[test]
fn color_codes_match_sgr_numbers() {
    assert_eq!(TextColor::Black.code(), 30);
    assert_eq!(TextColor::White.code(), 37);
    assert_eq!(TextColor::BrightBlack.code(), 90);
    assert_eq!(TextBackgroundColor::Black.code(), 40);
    assert_eq!(TextBackgroundColor::BrightWhite.code(), 107);
    assert_eq!(TextCommand::Reset.code(), 0);
    assert_eq!(TextColor::Green.code_str(), "32");
    assert_eq!(TextBackgroundColor::BrightRed.code_str(), "101");
}

#[test]
fn cells_of_rendered_space_are_empty() {
    let mut text = Text::new(PseudoBuffer::new((30, 10)));
    let (_, changes) = text.render(TextLeaf::plain("a b".to_string()), (0, 0)).unwrap();
    assert!(!changes[0].cell.empty);
    assert!(changes[1].cell.empty);
    assert_eq!(changes[1].cell, BufCell::empty());
    assert!(!changes[2].cell.empty);
}

#[test]
fn text_helpers_edit_by_character() {
    assert_eq!(string_insert_char("abc", 1, 'x'), "axbc");
    assert_eq!(string_insert_char("abc", 3, 'x'), "abcx");
    assert_eq!(string_insert_char("", 0, 'x'), "x");
    assert_eq!(string_remove_char("abc", 0), "bc");
    assert_eq!(string_remove_char("abc", 2), "ab");
    assert_eq!(repeat_char('-', 3), "---");
    assert_eq!(repeat_char('-', 0), "");
}
