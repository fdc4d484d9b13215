use hamui::buffer::{BufCell, BufError, Buffer, BufferChange, BufferWrite, PseudoBuffer};

fn grid_chars(rows: &Vec<Vec<BufCell>>) -> Vec<String> {
    rows.iter()
        .map(|r| r.iter().map(|c| c.character).collect::<String>())
        .collect()
}

#[test]
fn cell_from_char_sets_empty_flag() {
    let a = BufCell::from_char('x');
    assert_eq!(a.character, 'x');
    assert!(!a.empty);
    let b = BufCell::from_char(' ');
    assert_eq!(b.character, ' ');
    assert!(b.empty);
    assert_eq!(BufCell::empty(), b);
}

#[test]
fn as_row_builds_blank_row() {
    let row = BufCell::as_row(4);
    assert_eq!(row.len(), 4);
    for cell in &row {
        assert_eq!(cell.character, ' ');
        assert!(cell.empty);
    }
}

#[test]
fn new_buffer_is_blank() {
    let buf = Buffer::new((10, 3));
    assert_eq!(buf.size, (10, 3));
    assert_eq!(buf.vec.len(), 3);
    assert_eq!(buf.screen_vec.len(), 3);
    for row in &buf.vec {
        assert_eq!(row.len(), 10);
    }
    assert_eq!(grid_chars(&buf.screen_vec), vec!["          "; 3]);
}

// A write at a valid position, committed, is readable back; an out-of-range
// write fails with OutOfBounds.
#[test]
fn write_commit_read_round_trip() {
    let mut buf = Buffer::new((10, 3));
    buf.write_cell((2, 1), BufCell::from_char('X')).unwrap();
    let _ = buf.commit();
    let cell = buf.get_cell((2, 1)).unwrap();
    assert_eq!(cell.character, 'X');
}

#[test]
fn write_out_of_range_column_fails() {
    let mut buf = Buffer::new((10, 3));
    let r = buf.write_cell((10, 1), BufCell::from_char('X'));
    assert_eq!(r.unwrap_err(), BufError::OutOfBounds);
}

#[test]
fn write_out_of_range_row_fails() {
    let mut buf = Buffer::new((10, 3));
    let r = buf.write_cell((0, 3), BufCell::from_char('X'));
    assert_eq!(r.unwrap_err(), BufError::OutOfBounds);
}

// The commit of a single written cell emits one whole-row repaint with the
// written character in place and spaces elsewhere.
#[test]
fn commit_emits_whole_row() {
    let mut buf = Buffer::new((10, 3));
    buf.write_cell((2, 1), BufCell::from_char('X')).unwrap();
    let out = buf.commit();
    assert_eq!(out.len(), 1);
    assert_eq!(out[0].y, 1);
    let line: String = out[0].text.iter().collect();
    assert_eq!(line, "  X       ");
    assert_eq!(buf.screen_vec[1][2].character, 'X');
}

// An empty (erasing) write lands on the committed grid at once, without a
// commit.
#[test]
fn empty_write_goes_straight_to_screen() {
    let mut buf = Buffer::new((10, 3));
    buf.write_cell((4, 0), BufCell::from_char('Q')).unwrap();
    let _ = buf.commit();
    assert_eq!(buf.get_cell((4, 0)).unwrap().character, 'Q');
    buf.write_cell((4, 0), BufCell::empty()).unwrap();
    // no commit needed: the erase is already visible
    assert_eq!(buf.get_cell((4, 0)).unwrap().character, ' ');
    assert!(buf.get_cell((4, 0)).unwrap().empty);
}

// A diff pass never erases: an empty pending cell does not overwrite a
// non-empty committed cell.
#[test]
fn commit_does_not_erase_implicitly() {
    let mut buf = Buffer::new((4, 1));
    buf.write_str((0, 0), "abcd").unwrap();
    let _ = buf.commit();
    assert_eq!(grid_chars(&buf.screen_vec), vec!["abcd"]);
    // queue a row with one new character; the other cells are empty
    buf.write_cell((1, 0), BufCell::from_char('Z')).unwrap();
    let out = buf.commit();
    assert_eq!(out.len(), 1);
    let line: String = out[0].text.iter().collect();
    assert_eq!(line, "aZcd");
}

#[test]
fn write_str_writes_consecutive_cells() {
    let mut buf = Buffer::new((10, 2));
    buf.write_str((3, 0), "hi").unwrap();
    let _ = buf.commit();
    assert_eq!(buf.get_cell((3, 0)).unwrap().character, 'h');
    assert_eq!(buf.get_cell((4, 0)).unwrap().character, 'i');
}

#[test]
fn write_str_fails_past_row_end() {
    let mut buf = Buffer::new((4, 1));
    let r = buf.write_str((2, 0), "long");
    assert_eq!(r.unwrap_err(), BufError::OutOfBounds);
}

#[test]
fn fill_range_overwrites_pending_span() {
    let mut buf = Buffer::new((6, 2));
    buf.fill_range(1, 4, 0, BufCell::from_char('#')).unwrap();
    let out = buf.commit();
    assert_eq!(out.len(), 1);
    let line: String = out[0].text.iter().collect();
    assert_eq!(line, " ###  ");
}

#[test]
fn fill_range_invalid_row_fails() {
    let mut buf = Buffer::new((6, 2));
    let r = buf.fill_range(0, 2, 5, BufCell::from_char('#'));
    assert_eq!(r.unwrap_err(), BufError::OutOfBounds);
}

// Resizing twice to the same size leaves the same grids and dimensions as
// resizing once.
#[test]
fn resize_is_idempotent() {
    let mut buf = Buffer::new((6, 4));
    buf.write_str((0, 0), "mark").unwrap();
    buf.write_cell((5, 3), BufCell::from_char('z')).unwrap();
    let _ = buf.commit();
    buf.resize((3, 2)).unwrap();
    let once_pending = buf.vec.clone();
    let once_screen = buf.screen_vec.clone();
    let once_size = buf.size;
    buf.resize((3, 2)).unwrap();
    assert_eq!(buf.vec, once_pending);
    assert_eq!(buf.screen_vec, once_screen);
    assert_eq!(buf.size, once_size);
}

// Growing and then shrinking back to the original size restores every cell
// that was present before the growth.
#[test]
fn grow_then_shrink_restores_cells() {
    let mut buf = Buffer::new((4, 2));
    buf.write_str((0, 0), "wxyz").unwrap();
    buf.write_str((1, 1), "ab").unwrap();
    let _ = buf.commit();
    let before_pending = buf.vec.clone();
    let before_screen = buf.screen_vec.clone();
    buf.resize((9, 7)).unwrap();
    buf.resize((4, 2)).unwrap();
    assert_eq!(buf.vec, before_pending);
    assert_eq!(buf.screen_vec, before_screen);
}

#[test]
fn resize_pads_with_blanks() {
    let mut buf = Buffer::new((2, 1));
    buf.write_str((0, 0), "ab").unwrap();
    let _ = buf.commit();
    buf.resize((4, 2)).unwrap();
    assert_eq!(grid_chars(&buf.screen_vec), vec!["ab  ", "    "]);
    assert_eq!(buf.size, (4, 2));
}

// After any commit the pending grid equals a fully empty grid of the
// current size.
#[test]
fn pending_is_blank_after_commit() {
    let mut buf = Buffer::new((5, 3));
    buf.write_str((0, 0), "abcde").unwrap();
    buf.write_str((2, 2), "q").unwrap();
    let _ = buf.commit();
    let mut blank = Vec::new();
    blank.resize(3, BufCell::as_row(5));
    assert_eq!(buf.vec, blank);
}

// Absorbing a change log whose entries all equal the committed cells is a
// no-op: the next commit emits nothing.
#[test]
fn absorb_of_matching_changes_is_noop() {
    let mut buf = Buffer::new((8, 2));
    buf.write_str((1, 0), "on").unwrap();
    let _ = buf.commit();
    let changes = vec![
        BufferChange { loc: (1, 0), cell: BufCell::from_char('o') },
        BufferChange { loc: (2, 0), cell: BufCell::from_char('n') },
        BufferChange { loc: (0, 1), cell: BufCell::empty() },
    ];
    buf.consume_changes(changes).unwrap();
    let out = buf.commit();
    assert!(out.is_empty());
}

// An erasing write is visible to a later absorb's duplicate check without
// an intervening commit.
#[test]
fn empty_write_visible_to_absorb_dedup() {
    let mut buf = Buffer::new((8, 1));
    buf.write_str((0, 0), "x").unwrap();
    let _ = buf.commit();
    buf.write_cell((0, 0), BufCell::empty()).unwrap();
    // the erase is on the committed grid, so an equal entry is dropped
    let changes = vec![BufferChange { loc: (0, 0), cell: BufCell::empty() }];
    buf.consume_changes(changes).unwrap();
    let out = buf.commit();
    assert!(out.is_empty());
}

#[test]
fn absorb_out_of_range_change_fails() {
    let mut buf = Buffer::new((4, 1));
    let changes = vec![BufferChange { loc: (9, 9), cell: BufCell::from_char('x') }];
    let r = buf.consume_changes(changes);
    assert_eq!(r.unwrap_err(), BufError::OutOfBounds);
}

#[test]
fn absorb_differing_change_is_written() {
    let mut buf = Buffer::new((4, 1));
    let changes = vec![BufferChange { loc: (1, 0), cell: BufCell::from_char('k') }];
    buf.consume_changes(changes).unwrap();
    let out = buf.commit();
    assert_eq!(out.len(), 1);
    let line: String = out[0].text.iter().collect();
    assert_eq!(line, " k  ");
}

#[test]
fn pseudo_buffer_records_writes_in_order() {
    let mut pseudo = PseudoBuffer::new((20, 5));
    pseudo.write_cell((1, 2), BufCell::from_char('a')).unwrap();
    pseudo.write_str((3, 4), "bc").unwrap();
    let changes = pseudo.get_changes();
    assert_eq!(changes.len(), 3);
    assert_eq!(changes[0].loc, (1, 2));
    assert_eq!(changes[0].cell.character, 'a');
    assert_eq!(changes[1].loc, (3, 4));
    assert_eq!(changes[1].cell.character, 'b');
    assert_eq!(changes[2].loc, (4, 4));
    assert_eq!(changes[2].cell.character, 'c');
}

#[test]
fn pseudo_buffer_set_changes_replaces_log() {
    let mut pseudo = PseudoBuffer::new((20, 5));
    pseudo.write_cell((0, 0), BufCell::from_char('z')).unwrap();
    pseudo.set_changes(Vec::new());
    assert!(pseudo.get_changes().is_empty());
}

// Change logs merge by concatenation, and on replay the later entry for a
// position wins.
#[test]
fn later_change_log_entry_wins_on_replay() {
    let mut first = PseudoBuffer::new((10, 2));
    first.write_cell((2, 0), BufCell::from_char('1')).unwrap();
    let mut second = PseudoBuffer::new((10, 2));
    second.write_cell((2, 0), BufCell::from_char('2')).unwrap();
    let merged = [first.get_changes(), second.get_changes()].concat();

    let mut buf = Buffer::new((10, 2));
    buf.consume_changes(merged).unwrap();
    let _ = buf.commit();
    assert_eq!(buf.get_cell((2, 0)).unwrap().character, '2');
}
