//! A terminal-screen rendering core.
//!
//! The crate keeps two cell grids — a pending grid that collects writes and a
//! committed grid that mirrors the screen — and reconciles them with a
//! diff-based commit that emits one whole-row write per changed row.  On top
//! of the buffer sits an input state machine that toggles between pointer and
//! keyboard interaction and keeps the cursor and edit text consistent.
//! Terminal I/O itself (raw mode, event polling, byte output) is left to the
//! caller: every operation here turns plain values into plain values, and the
//! caller performs the returned actions against the real terminal.
pub mod buffer;
pub mod drawing;
pub mod text;

use vstd::prelude::*;

use crate::buffer::{
    absorb_spec, commit_output_spec, commit_screen_spec, empty_cell, empty_grid_spec,
    fill_range_spec, lemma_absorb_preserves_shape, resize_grid_spec, rowwrites_match,
    write_str_spec, BufCell, BufError, Buffer, BufferChange, BufferWrite, RowWrite,
};
use crate::drawing::Vec2;
use crate::text::{
    insert_char_spec, remove_char_spec, repeat_char, repeat_char_spec, string_insert_char,
    string_remove_char,
};

verus! {

/// Main UI state: interaction mode, cursor, anchor and the text being edited.
pub struct State {
    /// Window size
    pub window_size: Vec2,
    /// If we are in keyboard mode rather than pointer mode
    pub keyboard_input_mode: bool,
    /// Where the user last clicked (pointer mode); left edge of the text
    /// being edited (keyboard mode)
    pub clicked: Vec2,
    /// Current text input (keyboard mode)
    pub input: String,
    /// Where the cursor currently is
    pub cursor_pos: Vec2,
    /// Minimum cursor X value
    pub min_x: u16,
}

/// Do two states agree, comparing the edit text by its characters?
pub open spec fn state_like(a: State, b: State) -> bool {
    &&& a.window_size == b.window_size
    &&& a.keyboard_input_mode == b.keyboard_input_mode
    &&& a.clicked == b.clicked
    &&& a.input@ == b.input@
    &&& a.cursor_pos == b.cursor_pos
    &&& a.min_x == b.min_x
}

/// Do two buffers hold the same size and grids?
pub open spec fn buffer_like(a: Buffer, b: Buffer) -> bool {
    &&& a.size == b.size
    &&& a.pending() == b.pending()
    &&& a.screen() == b.screen()
}

/// One terminal input event, as the event loop consumes it.
#[derive(Clone, Copy, Debug, PartialEq, Eq, Structural)]
pub enum InputEvent {
    /// The window was resized to the given width and height.
    Resize(u16, u16),
    /// The quit key combination.
    Quit,
    /// A printable character was typed (without a control modifier).
    Char(char),
    /// The key that toggles between pointer and keyboard mode.
    ToggleMode,
    /// The submit key.
    Submit,
    /// The left arrow key.
    Left,
    /// The right arrow key.
    Right,
    /// The backspace key.
    Backspace,
    /// The left mouse button was released at the given column and row.
    MouseUpLeft(u16, u16),
    /// The mouse moved to the given column and row.
    MouseMoved(u16, u16),
    /// Any other event; ignored.
    Other,
}

/// One terminal action the caller must perform, in order, after an event is
/// handled.
#[derive(Clone, Copy, Debug, PartialEq, Eq, Structural)]
pub enum TermAction {
    /// Clear the whole screen.
    ClearScreen,
    /// Move the terminal cursor to the given column and row.
    MoveCursor(u16, u16),
    /// Save the terminal cursor position.
    SaveCursor,
    /// Restore the saved terminal cursor position.
    RestoreCursor,
    /// Run a full draw pass: render the components, feed their changes to
    /// [`Frame::step`], and perform what it returns.
    Redraw,
    /// Tear the terminal down and leave.
    Quit,
}

/// The width of the side panel that the cursor may not enter from the left.
pub const SIDE_PANEL_MARGIN: u16 = 51;

/// An event that changes nothing and asks for no terminal action.
pub open spec fn unchanged_no_acts(
    pre: Frame,
    post: Frame,
    r: Result<Vec<TermAction>, BufError>,
) -> bool {
    &&& buffer_like(post.buffer, pre.buffer)
    &&& state_like(post.state, pre.state)
    &&& r is Ok
    &&& r->Ok_0@ == Seq::<TermAction>::empty()
}

/// UI frame: the double buffer together with the input state.
///
/// The frame is the pure core of the event loop: the caller polls the
/// terminal, translates each event into an [`InputEvent`], hands it to
/// [`Frame::handle_event`], and performs the returned [`TermAction`]s.
pub struct Frame {
    pub buffer: Buffer,
    pub state: State,
}

impl Frame {
    /// Create a new frame for a window of the given size, in pointer mode,
    /// with a blank buffer and an empty edit text.
    pub fn new(window_size: Vec2) -> (f: Frame)
        ensures
            f.buffer.size == window_size,
            f.buffer.pending() == empty_grid_spec(window_size.1 as nat, window_size.0 as nat),
            f.buffer.screen() == empty_grid_spec(window_size.1 as nat, window_size.0 as nat),
            f.state.window_size == window_size,
            !f.state.keyboard_input_mode,
            f.state.clicked == (0u16, 0u16),
            f.state.input@ == Seq::<char>::empty(),
            f.state.cursor_pos == (0u16, 0u16),
            f.state.min_x == 0,
    {
        Frame {
            buffer: Buffer::new(window_size),
            state: State {
                window_size,
                keyboard_input_mode: false,  // pointer mode by default
                clicked: (0, 0),
                input: String::new(),
                cursor_pos: (0, 0),
                min_x: 0,
            },
        }
    }


    /// Does the frame accept this event without tripping a machine limit?
    ///
    /// The conditions mirror the arithmetic of [`Frame::handle_event`]: a
    /// keyboard edit needs the cursor at or right of the anchor and the
    /// rewritten span within column range, moving right needs a window at
    /// least as wide as the side panel, and advancing the edit line needs
    /// room below.  Events that fail a bound here would have tripped an
    /// arithmetic limit; the event loop drops them after checking with
    /// [`Frame::check_event`].
    pub open spec fn event_ok(&self, event: InputEvent) -> bool {
        match event {
            InputEvent::Char(c) => !self.state.keyboard_input_mode || {
                let wa = self.state.clicked.0 as int;
                let cx = self.state.cursor_pos.0 as int;
                &&& cx >= wa
                &&& (cx - wa <= self.state.input@.len() ==> wa + self.state.input@.len() + 1
                    <= u16::MAX)
            },
            InputEvent::Submit => {
                &&& self.state.cursor_pos.1 < u16::MAX
                &&& (self.state.cursor_pos.1 + 1 != self.buffer.size.1 ==> self.state.clicked.1
                    < u16::MAX)
            },
            InputEvent::Left => self.state.cursor_pos.0 == self.state.min_x
                || self.state.cursor_pos.0 > 0,
            InputEvent::Right => {
                &&& self.buffer.size.0 >= SIDE_PANEL_MARGIN
                &&& (self.state.cursor_pos.0 == self.buffer.size.0 - SIDE_PANEL_MARGIN
                    || self.state.cursor_pos.0 < u16::MAX)
            },
            InputEvent::Backspace => self.state.cursor_pos.0 == self.state.min_x || {
                let wa = self.state.clicked.0 as int;
                let cx = self.state.cursor_pos.0 as int;
                let len = self.state.input@.len() as int;
                &&& cx >= wa
                &&& (1 <= cx - wa <= len ==> {
                    &&& wa + len <= u16::MAX
                    &&& (self.state.cursor_pos.1 < self.buffer.pending().len() ==> wa + len
                        <= self.buffer.pending()[self.state.cursor_pos.1 as int].len())
                })
            },
            _ => true,
        }
    }

    /// Check whether the frame accepts an event, so the event loop can test
    /// before it calls [`Frame::handle_event`].
    pub fn check_event(&self, event: InputEvent) -> (b: bool)
        ensures
            b == self.event_ok(event),
    {
        match event {
            InputEvent::Char(_) => {
                if !self.state.keyboard_input_mode {
                    return true;
                }
                let wa = self.state.clicked.0;
                let cx = self.state.cursor_pos.0;
                if cx < wa {
                    return false;
                }
                let len = self.state.input.unicode_len();
                if ((cx - wa) as usize) <= len {
                    len < (u16::MAX as usize) && (wa as usize) + len + 1 <= (u16::MAX as usize)
                } else {
                    true
                }
            },
            InputEvent::Submit => {
                if self.state.cursor_pos.1 >= u16::MAX {
                    return false;
                }
                self.state.cursor_pos.1 + 1 == self.buffer.size.1 || self.state.clicked.1
                    < u16::MAX
            },
            InputEvent::Left => self.state.cursor_pos.0 == self.state.min_x
                || self.state.cursor_pos.0 > 0,
            InputEvent::Right => {
                if self.buffer.size.0 < SIDE_PANEL_MARGIN {
                    return false;
                }
                self.state.cursor_pos.0 == self.buffer.size.0 - SIDE_PANEL_MARGIN
                    || self.state.cursor_pos.0 < u16::MAX
            },
            InputEvent::Backspace => {
                if self.state.cursor_pos.0 == self.state.min_x {
                    return true;
                }
                let wa = self.state.clicked.0;
                let cx = self.state.cursor_pos.0;
                if cx < wa {
                    return false;
                }
                let rp = (cx - wa) as usize;
                let len = self.state.input.unicode_len();
                if 1 <= rp && rp <= len {
                    if len > (u16::MAX as usize) || (wa as usize) + len > (u16::MAX as usize) {
                        return false;
                    }
                    let y = self.state.cursor_pos.1 as usize;
                    if y < self.buffer.vec.len() {
                        proof {
                            assert(self.buffer.pending()[y as int].len() == self.buffer.vec@[
                                y as int
                            ]@.len());
                        }
                        (wa as usize) + len <= self.buffer.vec[y].len()
                    } else {
                        true
                    }
                } else {
                    true
                }
            },
            _ => true,
        }
    }


    /// Step rendering without redrawing components: commit the buffer and
    /// return the row repaints.  After performing them the caller should
    /// move the terminal cursor back to `state.cursor_pos`.
    pub fn step_no_draw(&mut self) -> (out: Vec<RowWrite>)
        requires
            old(self).buffer.pending().len() <= u16::MAX,
        ensures
            state_like(final(self).state, old(self).state),
            final(self).buffer.size == old(self).buffer.size,
            final(self).buffer.screen() == commit_screen_spec(
                old(self).buffer.pending(),
                old(self).buffer.screen(),
                old(self).buffer.size.0 as nat,
            ),
            final(self).buffer.pending() == empty_grid_spec(
                old(self).buffer.pending().len(),
                old(self).buffer.size.0 as nat,
            ),
            rowwrites_match(
                out@,
                commit_output_spec(
                    old(self).buffer.pending(),
                    old(self).buffer.screen(),
                    old(self).buffer.size.0 as nat,
                ),
            ),
    {
        self.buffer.commit()
    }

    /// Step rendering: absorb the changes a draw pass produced, then commit.
    /// Fails when one of the changes is out of bounds; the changes up to the
    /// failing one are still absorbed, and nothing is committed.
    pub fn step(&mut self, changes: Vec<BufferChange>) -> (r: Result<Vec<RowWrite>, BufError>)
        requires
            old(self).buffer.pending().len() <= u16::MAX,
        ensures
            state_like(final(self).state, old(self).state),
            final(self).buffer.size == old(self).buffer.size,
            ({
                let ab = absorb_spec(
                    old(self).buffer.pending(),
                    old(self).buffer.screen(),
                    changes@,
                );
                match ab.2 {
                    Some(e) => {
                        &&& r == Err::<Vec<RowWrite>, BufError>(e)
                        &&& final(self).buffer.pending() == ab.0
                        &&& final(self).buffer.screen() == ab.1
                    },
                    None => {
                        let w = old(self).buffer.size.0 as nat;
                        &&& r is Ok
                        &&& final(self).buffer.screen() == commit_screen_spec(ab.0, ab.1, w)
                        &&& final(self).buffer.pending() == empty_grid_spec(ab.0.len(), w)
                        &&& rowwrites_match(r->Ok_0@, commit_output_spec(ab.0, ab.1, w))
                    },
                }
            }),
    {
        proof {
            lemma_absorb_preserves_shape(
                self.buffer.pending(),
                self.buffer.screen(),
                changes@,
            );
        }
        if let Err(e) = self.buffer.consume_changes(changes) {
            return Err(e);
        }
        Ok(self.buffer.commit())
    }

    /// Handle one input event: mutate the input state and the buffer as the
    /// event demands, and return the terminal actions the caller must
    /// perform, in order.  A `Redraw` action asks the caller to run a draw
    /// pass and feed its changes to [`Frame::step`].
    ///
    /// Fails only when a keyboard edit writes out of the grid's bounds; the
    /// error is the underlying buffer error, and the contract says what was
    /// changed before the write stopped.
    pub fn handle_event(&mut self, event: InputEvent) -> (r: Result<Vec<TermAction>, BufError>)
        requires
            old(self).event_ok(event),
        ensures
            final(self).state.window_size == old(self).state.window_size,
            final(self).state.min_x == old(self).state.min_x,
            match event {
                InputEvent::Resize(w, h) => {
                    &&& final(self).buffer.size == (w, h)
                    &&& final(self).buffer.pending() == resize_grid_spec(
                        old(self).buffer.pending(),
                        (w, h),
                    )
                    &&& final(self).buffer.screen() == resize_grid_spec(
                        old(self).buffer.screen(),
                        (w, h),
                    )
                    &&& state_like(final(self).state, old(self).state)
                    &&& r is Ok
                    &&& r->Ok_0@ == seq![TermAction::ClearScreen, TermAction::Redraw]
                },
                InputEvent::Quit => {
                    &&& buffer_like(final(self).buffer, old(self).buffer)
                    &&& state_like(final(self).state, old(self).state)
                    &&& r is Ok
                    &&& r->Ok_0@ == seq![TermAction::Quit]
                },
                InputEvent::Char(c) => {
                    let wa = old(self).state.clicked.0;
                    let cx = old(self).state.cursor_pos.0;
                    let cy = old(self).state.cursor_pos.1;
                    if !old(self).state.keyboard_input_mode || cx - wa > old(
                        self,
                    ).state.input@.len() {
                        unchanged_no_acts(*old(self), *final(self), r)
                    } else {
                        let newtext = insert_char_spec(old(self).state.input@, cx - wa, c);
                        let ws = write_str_spec(
                            old(self).buffer.pending(),
                            old(self).buffer.screen(),
                            wa as int,
                            cy as int,
                            newtext,
                        );
                        &&& final(self).state.keyboard_input_mode == old(
                            self,
                        ).state.keyboard_input_mode
                        &&& final(self).state.clicked == old(self).state.clicked
                        &&& final(self).state.input@ == newtext
                        &&& final(self).buffer.size == old(self).buffer.size
                        &&& final(self).buffer.pending() == ws.0
                        &&& final(self).buffer.screen() == ws.1
                        &&& match ws.2 {
                            None => {
                                &&& final(self).state.cursor_pos == ((cx + 1) as u16, cy)
                                &&& r is Ok
                                &&& r->Ok_0@ == seq![
                                    TermAction::MoveCursor(wa, cy),
                                    TermAction::MoveCursor(cx, cy),
                                    TermAction::Redraw,
                                ]
                            },
                            Some(e) => {
                                &&& final(self).state.cursor_pos == (wa, cy)
                                &&& r == Err::<Vec<TermAction>, BufError>(e)
                            },
                        }
                    }
                },
                InputEvent::ToggleMode => {
                    &&& buffer_like(final(self).buffer, old(self).buffer)
                    &&& final(self).state.keyboard_input_mode == !old(
                        self,
                    ).state.keyboard_input_mode
                    &&& final(self).state.cursor_pos == old(self).state.cursor_pos
                    &&& if !old(self).state.keyboard_input_mode {
                        // entering keyboard mode: the anchor becomes the edit origin
                        &&& final(self).state.clicked == (
                            old(self).state.cursor_pos.0,
                            old(self).state.clicked.1,
                        )
                        &&& final(self).state.input@ == old(self).state.input@
                    } else {
                        // leaving keyboard mode: the edit text is dropped
                        &&& final(self).state.clicked == old(self).state.clicked
                        &&& final(self).state.input@ == Seq::<char>::empty()
                    }
                    &&& r is Ok
                    &&& r->Ok_0@ == Seq::<TermAction>::empty()
                },
                InputEvent::Submit => {
                    &&& buffer_like(final(self).buffer, old(self).buffer)
                    &&& final(self).state.keyboard_input_mode == old(
                        self,
                    ).state.keyboard_input_mode
                    &&& final(self).state.input@ == Seq::<char>::empty()
                    &&& if old(self).state.cursor_pos.1 + 1 == old(self).buffer.size.1 {
                        &&& final(self).state.clicked == old(self).state.clicked
                        &&& final(self).state.cursor_pos == (0u16, 0u16)
                        &&& r is Ok
                        &&& r->Ok_0@ == seq![
                            TermAction::ClearScreen,
                            TermAction::MoveCursor(0, 0),
                            TermAction::Redraw,
                        ]
                    } else {
                        &&& final(self).state.clicked == (
                            old(self).state.clicked.0,
                            (old(self).state.clicked.1 + 1) as u16,
                        )
                        &&& final(self).state.cursor_pos == final(self).state.clicked
                        &&& r is Ok
                        &&& r->Ok_0@ == seq![TermAction::Redraw]
                    }
                },
                InputEvent::Left => {
                    &&& buffer_like(final(self).buffer, old(self).buffer)
                    &&& final(self).state.keyboard_input_mode == old(
                        self,
                    ).state.keyboard_input_mode
                    &&& final(self).state.clicked == old(self).state.clicked
                    &&& final(self).state.input@ == old(self).state.input@
                    &&& final(self).state.cursor_pos == (
                        if old(self).state.cursor_pos.0 == old(self).state.min_x {
                            old(self).state.cursor_pos.0
                        } else {
                            (old(self).state.cursor_pos.0 - 1) as u16
                        },
                        old(self).state.cursor_pos.1,
                    )
                    &&& r is Ok
                    &&& r->Ok_0@ == Seq::<TermAction>::empty()
                },
                InputEvent::Right => {
                    &&& buffer_like(final(self).buffer, old(self).buffer)
                    &&& final(self).state.keyboard_input_mode == old(
                        self,
                    ).state.keyboard_input_mode
                    &&& final(self).state.clicked == old(self).state.clicked
                    &&& final(self).state.input@ == old(self).state.input@
                    &&& final(self).state.cursor_pos == (
                        if old(self).state.cursor_pos.0 == old(self).buffer.size.0
                            - SIDE_PANEL_MARGIN {
                            old(self).state.cursor_pos.0
                        } else {
                            (old(self).state.cursor_pos.0 + 1) as u16
                        },
                        old(self).state.cursor_pos.1,
                    )
                    &&& r is Ok
                    &&& r->Ok_0@ == Seq::<TermAction>::empty()
                },
                InputEvent::Backspace => {
                    let wa = old(self).state.clicked.0;
                    let cx = old(self).state.cursor_pos.0;
                    let cy = old(self).state.cursor_pos.1;
                    let len = old(self).state.input@.len() as int;
                    if cx == old(self).state.min_x || cx - wa > len || cx == wa {
                        unchanged_no_acts(*old(self), *final(self), r)
                    } else {
                        let newtext = remove_char_spec(old(self).state.input@, cx - wa - 1);
                        &&& final(self).state.keyboard_input_mode == old(
                            self,
                        ).state.keyboard_input_mode
                        &&& final(self).state.clicked == old(self).state.clicked
                        &&& final(self).state.input@ == newtext
                        &&& final(self).state.cursor_pos == ((cx - 1) as u16, cy)
                        &&& final(self).buffer.size == old(self).buffer.size
                        &&& match fill_range_spec(
                            old(self).buffer.pending(),
                            wa as int,
                            wa as int + len,
                            cy as int,
                            empty_cell(),
                        ) {
                            Err(e) => {
                                &&& r == Err::<Vec<TermAction>, BufError>(e)
                                &&& buffer_like(final(self).buffer, old(self).buffer)
                            },
                            Ok(p1) => {
                                let ws1 = write_str_spec(
                                    p1,
                                    old(self).buffer.screen(),
                                    wa as int,
                                    cy as int,
                                    repeat_char_spec(' ', len as nat),
                                );
                                match ws1.2 {
                                    Some(e) => {
                                        &&& r == Err::<Vec<TermAction>, BufError>(e)
                                        &&& final(self).buffer.pending() == ws1.0
                                        &&& final(self).buffer.screen() == ws1.1
                                    },
                                    None => {
                                        let ws2 = write_str_spec(
                                            ws1.0,
                                            ws1.1,
                                            wa as int,
                                            cy as int,
                                            newtext,
                                        );
                                        &&& final(self).buffer.pending() == ws2.0
                                        &&& final(self).buffer.screen() == ws2.1
                                        &&& match ws2.2 {
                                            Some(e) => r == Err::<Vec<TermAction>, BufError>(e),
                                            None => {
                                                &&& r is Ok
                                                &&& r->Ok_0@ == seq![
                                                    TermAction::MoveCursor((cx - 1) as u16, cy),
                                                    TermAction::Redraw,
                                                ]
                                            },
                                        }
                                    },
                                }
                            },
                        }
                    }
                },
                InputEvent::MouseUpLeft(mc, mr) => {
                    if old(self).state.keyboard_input_mode {
                        unchanged_no_acts(*old(self), *final(self), r)
                    } else {
                        &&& buffer_like(final(self).buffer, old(self).buffer)
                        &&& final(self).state.keyboard_input_mode == old(
                            self,
                        ).state.keyboard_input_mode
                        &&& final(self).state.clicked == (mc, mr)
                        &&& final(self).state.input@ == old(self).state.input@
                        &&& final(self).state.cursor_pos == old(self).state.cursor_pos
                        &&& r is Ok
                        &&& r->Ok_0@ == seq![
                            TermAction::SaveCursor,
                            TermAction::Redraw,
                            TermAction::RestoreCursor,
                        ]
                    }
                },
                InputEvent::MouseMoved(mc, mr) => {
                    if old(self).state.keyboard_input_mode {
                        unchanged_no_acts(*old(self), *final(self), r)
                    } else {
                        &&& buffer_like(final(self).buffer, old(self).buffer)
                        &&& final(self).state.keyboard_input_mode == old(
                            self,
                        ).state.keyboard_input_mode
                        &&& final(self).state.clicked == old(self).state.clicked
                        &&& final(self).state.input@ == old(self).state.input@
                        &&& final(self).state.cursor_pos == (mc, mr)
                        &&& r is Ok
                        &&& r->Ok_0@ == seq![TermAction::MoveCursor(mc, mr)]
                    }
                },
                InputEvent::Other => unchanged_no_acts(*old(self), *final(self), r),
            },
    {
        match event {
            InputEvent::Resize(w, h) => {
                let _ = self.buffer.resize((w, h));
                let mut acts: Vec<TermAction> = Vec::new();
                acts.push(TermAction::ClearScreen);
                acts.push(TermAction::Redraw);
                proof {
                    assert(acts@ =~= seq![TermAction::ClearScreen, TermAction::Redraw]);
                }
                Ok(acts)
            },
            InputEvent::Quit => {
                let mut acts: Vec<TermAction> = Vec::new();
                acts.push(TermAction::Quit);
                proof {
                    assert(acts@ =~= seq![TermAction::Quit]);
                }
                Ok(acts)
            },
            InputEvent::Char(c) => {
                if !self.state.keyboard_input_mode {
                    return Ok(Vec::new());
                }
                // where we are in the prompt, relative to the edit origin
                let wa = self.state.clicked.0;
                let cx = self.state.cursor_pos.0;
                let cy = self.state.cursor_pos.1;
                let rp = cx - wa;
                let len = self.state.input.unicode_len();
                if (rp as usize) > len {
                    return Ok(Vec::new());
                }
                // write the char into the edit text
                self.state.input = string_insert_char(self.state.input.as_str(), rp as usize, c);
                // rewrite the edited span from the edit origin
                let mut acts: Vec<TermAction> = Vec::new();
                self.state.cursor_pos = (wa, cy);
                acts.push(TermAction::MoveCursor(wa, cy));
                if let Err(e) = self.buffer.write_str((wa, cy), self.state.input.as_str()) {
                    return Err(e);
                }
                // restore, then advance past the inserted character
                self.state.cursor_pos = (cx, cy);
                acts.push(TermAction::MoveCursor(cx, cy));
                self.state.cursor_pos = (cx + 1, cy);
                acts.push(TermAction::Redraw);
                proof {
                    assert(acts@ =~= seq![
                        TermAction::MoveCursor(wa, cy),
                        TermAction::MoveCursor(cx, cy),
                        TermAction::Redraw,
                    ]);
                }
                Ok(acts)
            },
            InputEvent::ToggleMode => {
                self.state.keyboard_input_mode = !self.state.keyboard_input_mode;
                if self.state.keyboard_input_mode {
                    // the anchor's column tells where we are typing; aligning
                    // it with the cursor makes typing start there
                    self.state.clicked = (self.state.cursor_pos.0, self.state.clicked.1);
                } else {
                    self.state.input = String::new();
                }
                Ok(Vec::new())
            },
            InputEvent::Submit => {
                self.state.input = String::new();
                let mut acts: Vec<TermAction> = Vec::new();
                if self.state.cursor_pos.1 + 1 == self.buffer.size.1 {
                    // at the last line: clear and start over at the origin
                    acts.push(TermAction::ClearScreen);
                    self.state.cursor_pos = (0, 0);
                    acts.push(TermAction::MoveCursor(0, 0));
                    acts.push(TermAction::Redraw);
                    proof {
                        assert(acts@ =~= seq![
                            TermAction::ClearScreen,
                            TermAction::MoveCursor(0, 0),
                            TermAction::Redraw,
                        ]);
                    }
                } else {
                    // line down from the anchor
                    self.state.clicked = (self.state.clicked.0, self.state.clicked.1 + 1);
                    self.state.cursor_pos = self.state.clicked;
                    acts.push(TermAction::Redraw);
                    proof {
                        assert(acts@ =~= seq![TermAction::Redraw]);
                    }
                }
                Ok(acts)
            },
            InputEvent::Left => {
                if self.state.cursor_pos.0 == self.state.min_x {
                    // cannot go through the prompt
                    return Ok(Vec::new());
                }
                self.state.cursor_pos = (self.state.cursor_pos.0 - 1, self.state.cursor_pos.1);
                Ok(Vec::new())
            },
            InputEvent::Right => {
                if self.state.cursor_pos.0 == self.buffer.size.0 - SIDE_PANEL_MARGIN {
                    // cannot go through the side panel
                    return Ok(Vec::new());
                }
                self.state.cursor_pos = (self.state.cursor_pos.0 + 1, self.state.cursor_pos.1);
                Ok(Vec::new())
            },
            InputEvent::Backspace => {
                if self.state.cursor_pos.0 == self.state.min_x {
                    // cannot go through the prompt
                    return Ok(Vec::new());
                }
                // make sure we are within the prompt
                let wa = self.state.clicked.0;
                let cx = self.state.cursor_pos.0;
                let cy = self.state.cursor_pos.1;
                let rp = cx - wa;
                let len = self.state.input.unicode_len();
                if (rp as usize) > len || rp == 0 {
                    return Ok(Vec::new());
                }
                // remove the character left of the cursor
                self.state.input = string_remove_char(
                    self.state.input.as_str(),
                    (rp - 1) as usize,
                );
                self.state.cursor_pos = (cx - 1, cy);
                let newlen = len - 1;
                // clear the stale tail from the edit origin, then rewrite
                let end = wa + (newlen as u16) + 1;
                if let Err(e) = self.buffer.fill_range(wa, end, cy, BufCell::empty()) {
                    return Err(e);
                }
                let spaces = repeat_char(' ', newlen + 1);
                if let Err(e) = self.buffer.write_str((wa, cy), spaces.as_str()) {
                    return Err(e);
                }
                if let Err(e) = self.buffer.write_str((wa, cy), self.state.input.as_str()) {
                    return Err(e);
                }
                let mut acts: Vec<TermAction> = Vec::new();
                acts.push(TermAction::MoveCursor(cx - 1, cy));
                acts.push(TermAction::Redraw);
                proof {
                    assert(acts@ =~= seq![
                        TermAction::MoveCursor((cx - 1) as u16, cy),
                        TermAction::Redraw,
                    ]);
                }
                Ok(acts)
            },
            InputEvent::MouseUpLeft(mc, mr) => {
                if self.state.keyboard_input_mode {
                    return Ok(Vec::new());
                }
                self.state.clicked = (mc, mr);
                let mut acts: Vec<TermAction> = Vec::new();
                acts.push(TermAction::SaveCursor);
                acts.push(TermAction::Redraw);
                acts.push(TermAction::RestoreCursor);
                proof {
                    assert(acts@ =~= seq![
                        TermAction::SaveCursor,
                        TermAction::Redraw,
                        TermAction::RestoreCursor,
                    ]);
                }
                Ok(acts)
            },
            InputEvent::MouseMoved(mc, mr) => {
                if self.state.keyboard_input_mode {
                    return Ok(Vec::new());
                }
                self.state.cursor_pos = (mc, mr);
                let mut acts: Vec<TermAction> = Vec::new();
                acts.push(TermAction::MoveCursor(mc, mr));
                proof {
                    assert(acts@ =~= seq![TermAction::MoveCursor(mc, mr)]);
                }
                Ok(acts)
            },
            InputEvent::Other => Ok(Vec::new()),
        }
    }
}

} // verus!

