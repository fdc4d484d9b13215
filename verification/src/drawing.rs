//! Components
//!
//! Drawing helpers that render boxes, lines and text into a change log,
//! plus the click hit-testing used by clickable components.
use vstd::prelude::*;

use crate::buffer::{
    changes_of_text_spec, BufError, BufferChange, BufferWrite, PseudoBuffer,
};
use crate::text::repeat_char_spec;
use crate::State;

verus! {

/// A pair of terminal coordinates or extents: `(x, y)` / `(width, height)`.
pub type Vec2 = (u16, u16);

pub type DrawingResult = Result<DrawingNode, BufError>;

pub type DrawingNode = (RectBoundary, Vec<BufferChange>);

/// A layout result: the position and size of a rendered component.
#[derive(Clone, Copy, Debug)]
pub struct RectBoundary {
    pub pos: Vec2,
    pub size: Vec2,
}

/// A component that renders itself into its change log.
pub trait Component {
    /// The bounds under which this component may render: each component
    /// states what keeps its column and row arithmetic in range.
    spec fn render_requires(&self, window_size: Vec2, rect: RectBoundary) -> bool;

    fn render(&mut self, window_size: Vec2, rect: RectBoundary) -> (r: DrawingResult)
        requires
            old(self).render_requires(window_size, rect),
    ;
}

/// Component can be created with "::new()"
pub trait Creatable: Sized {
    fn new(buffer: PseudoBuffer) -> Self;
}

// utility
/// Get the top-left corner that centers a box of the given size on the screen.
pub fn get_center(window_size: Vec2, size: Vec2) -> (r: Vec2)
    requires
        size.0 / 2 <= window_size.0 / 2,
        size.1 / 2 <= window_size.1 / 2,
    ensures
        r.0 == window_size.0 / 2 - size.0 / 2,
        r.1 == window_size.1 / 2 - size.1 / 2,
{
    let (w, h) = window_size;
    let (x, y) = size;

    ((w / 2) - (x / 2), (h / 2) - (y / 2))
}

/// Is the last clicked point inside the rectangle?
pub open spec fn click_inside_spec(p: Vec2, rect: RectBoundary) -> bool {
    &&& rect.pos.0 <= p.0 < rect.pos.0 + rect.size.0
    &&& rect.pos.1 <= p.1 < rect.pos.1 + rect.size.1
}

/// Check if a click was inside of a target position and size
pub fn check_click(state: &State, res: RectBoundary) -> (r: bool)
    requires
        res.pos.0 + res.size.0 <= u16::MAX,
        res.pos.1 + res.size.1 <= u16::MAX,
    ensures
        r == click_inside_spec(state.clicked, res),
{
    let (x, y) = state.clicked;

    if x < res.pos.0 || x >= res.pos.0 + res.size.0 {
        return false;
    }
    if y < res.pos.1 || y >= res.pos.1 + res.size.1 {
        return false;
    }
    true
}

/// Component can be clicked
pub trait Clickable {
    /// Handle a click event on the element: when the last click fell inside
    /// the rectangle, the supplied transition runs and its result replaces
    /// the state; otherwise the state is returned unchanged.
    fn on_click<F: FnOnce(State) -> State>(
        &mut self,
        res: RectBoundary,
        state: State,
        run: F,
    ) -> (r: State)
        requires
            res.pos.0 + res.size.0 <= u16::MAX,
            res.pos.1 + res.size.1 <= u16::MAX,
            click_inside_spec(state.clicked, res) ==> call_requires(run, (state,)),
        ensures
            click_inside_spec(state.clicked, res) ==> call_ensures(run, (state,), r),
            !click_inside_spec(state.clicked, res) ==> r == state,
    ;
}

/// The change log a line drawn downwards appends: the line character at each
/// row, and the end character on the last one.
pub open spec fn downwards_line_spec(
    x: int,
    y: int,
    h: int,
    i: int,
    ch: Seq<char>,
    end_ch: Seq<char>,
) -> Seq<BufferChange>
    decreases h - i,
{
    if i >= h {
        Seq::empty()
    } else if i == h - 1 {
        changes_of_text_spec(x, y + i, end_ch)
    } else {
        changes_of_text_spec(x, y + i, ch) + downwards_line_spec(x, y, h, i + 1, ch, end_ch)
    }
}

// line
pub struct DownwardsLine {
    pub rect: RectBoundary,
}

impl DownwardsLine {
    /// Draw a line going down: `height` rows starting at `start`, the line
    /// character on every row and the end character (for corners) on the
    /// last one.
    pub fn new(
        buffer: &mut PseudoBuffer,
        height: u16,
        start: Vec2,
        line_ch: &str,
        end_char: &str,
    ) -> (r: RectBoundary)
        requires
            start.1 + height <= u16::MAX,
            start.0 + line_ch@.len() <= u16::MAX,
            start.0 + end_char@.len() <= u16::MAX,
        ensures
            final(buffer).spec_window_size() == old(buffer).spec_window_size(),
            final(buffer)@ == old(buffer)@ + downwards_line_spec(
                start.0 as int,
                start.1 as int,
                height as int,
                0,
                line_ch@,
                end_char@,
            ),
            r == (RectBoundary { pos: start, size: (1u16, height) }),
    {
        let ghost full = downwards_line_spec(
            start.0 as int,
            start.1 as int,
            height as int,
            0,
            line_ch@,
            end_char@,
        );
        let mut i: u16 = 0;
        while i < height
            invariant
                i <= height,
                start.1 + height <= u16::MAX,
                start.0 + line_ch@.len() <= u16::MAX,
                start.0 + end_char@.len() <= u16::MAX,
                buffer.spec_window_size() == old(buffer).spec_window_size(),
                old(buffer)@ + full == buffer@ + downwards_line_spec(
                    start.0 as int,
                    start.1 as int,
                    height as int,
                    i as int,
                    line_ch@,
                    end_char@,
                ),
            decreases height - i,
        {
            let text = if i == height - 1 {
                end_char
            } else {
                line_ch
            };
            let ghost pre = buffer@;
            let res = buffer.write_str((start.0, start.1 + i), text);
            proof {
                let rest = downwards_line_spec(
                    start.0 as int,
                    start.1 as int,
                    height as int,
                    i as int + 1,
                    line_ch@,
                    end_char@,
                );
                let step = changes_of_text_spec(
                    start.0 as int,
                    start.1 as int + i,
                    text@,
                );
                if i == height - 1 {
                    assert(buffer@ + rest =~= pre + step);
                } else {
                    assert(buffer@ + rest =~= pre + (step + rest));
                    assert(pre + (step + rest) =~= (pre + step) + rest);
                }
                assert(old(buffer)@ + full =~= buffer@ + rest);
            }
            i = i + 1;
        }
        proof {
            assert(old(buffer)@ + full =~= buffer@);
        }
        // return
        RectBoundary { pos: start, size: (1, height) }
    }
}

// text leaf (just a small piece of text, not a full component)
/// A whole-display command code.
#[derive(Clone, Copy, Debug)]
pub enum TextCommand {
    Reset,
}

impl TextCommand {
    /// The SGR code of this command.
    pub open spec fn code_spec(self) -> int {
        match self {
            TextCommand::Reset => 0,
        }
    }

    /// The SGR code of this command, as a number.
    pub fn code(self) -> (r: u8)
        ensures
            r as int == self.code_spec(),
    {
        match self {
            TextCommand::Reset => 0,
        }
    }

    /// The SGR code of this command, in decimal digits.
    pub open spec fn code_str_spec(self) -> Seq<char> {
        match self {
            TextCommand::Reset => "0"@,
        }
    }

    /// The SGR code of this command, in decimal digits.
    pub fn code_str(self) -> (r: &'static str)
        ensures
            r@ == self.code_str_spec(),
    {
        match self {
            TextCommand::Reset => "0",
        }
    }
}

/// A text attribute code.
#[derive(Clone, Copy, Debug)]
pub enum TextAttribute {
    Bold,
    Italic,
    Underline,
    Swap,
}

impl TextAttribute {
    /// The SGR code of this attribute.
    pub open spec fn code_spec(self) -> int {
        match self {
            TextAttribute::Bold => 1,
            TextAttribute::Italic => 3,
            TextAttribute::Underline => 4,
            TextAttribute::Swap => 7,
        }
    }

    /// The SGR code of this attribute, as a number.
    pub fn code(self) -> (r: u8)
        ensures
            r as int == self.code_spec(),
    {
        match self {
            TextAttribute::Bold => 1,
            TextAttribute::Italic => 3,
            TextAttribute::Underline => 4,
            TextAttribute::Swap => 7,
        }
    }

    /// The SGR code of this attribute, in decimal digits.
    pub open spec fn code_str_spec(self) -> Seq<char> {
        match self {
            TextAttribute::Bold => "1"@,
            TextAttribute::Italic => "3"@,
            TextAttribute::Underline => "4"@,
            TextAttribute::Swap => "7"@,
        }
    }

    /// The SGR code of this attribute, in decimal digits.
    pub fn code_str(self) -> (r: &'static str)
        ensures
            r@ == self.code_str_spec(),
    {
        match self {
            TextAttribute::Bold => "1",
            TextAttribute::Italic => "3",
            TextAttribute::Underline => "4",
            TextAttribute::Swap => "7",
        }
    }
}

/// A foreground color code.
#[derive(Clone, Copy, Debug)]
pub enum TextColor {
    Black,
    Red,
    Green,
    Yellow,
    Blue,
    Magenta,
    Cyan,
    White,
    BrightBlack,
    BrightRed,
    BrightGreen,
    BrightYellow,
    BrightBlue,
    BrightMagenta,
    BrightCyan,
    BrightWhite,
}

impl TextColor {
    /// The SGR code of this foreground color.
    pub open spec fn code_spec(self) -> int {
        match self {
            TextColor::Black => 30,
            TextColor::Red => 31,
            TextColor::Green => 32,
            TextColor::Yellow => 33,
            TextColor::Blue => 34,
            TextColor::Magenta => 35,
            TextColor::Cyan => 36,
            TextColor::White => 37,
            TextColor::BrightBlack => 90,
            TextColor::BrightRed => 91,
            TextColor::BrightGreen => 92,
            TextColor::BrightYellow => 93,
            TextColor::BrightBlue => 94,
            TextColor::BrightMagenta => 95,
            TextColor::BrightCyan => 96,
            TextColor::BrightWhite => 97,
        }
    }

    /// The SGR code of this foreground color, as a number.
    pub fn code(self) -> (r: u8)
        ensures
            r as int == self.code_spec(),
    {
        match self {
            TextColor::Black => 30,
            TextColor::Red => 31,
            TextColor::Green => 32,
            TextColor::Yellow => 33,
            TextColor::Blue => 34,
            TextColor::Magenta => 35,
            TextColor::Cyan => 36,
            TextColor::White => 37,
            TextColor::BrightBlack => 90,
            TextColor::BrightRed => 91,
            TextColor::BrightGreen => 92,
            TextColor::BrightYellow => 93,
            TextColor::BrightBlue => 94,
            TextColor::BrightMagenta => 95,
            TextColor::BrightCyan => 96,
            TextColor::BrightWhite => 97,
        }
    }

    /// The SGR code of this foreground color, in decimal digits.
    pub open spec fn code_str_spec(self) -> Seq<char> {
        match self {
            TextColor::Black => "30"@,
            TextColor::Red => "31"@,
            TextColor::Green => "32"@,
            TextColor::Yellow => "33"@,
            TextColor::Blue => "34"@,
            TextColor::Magenta => "35"@,
            TextColor::Cyan => "36"@,
            TextColor::White => "37"@,
            TextColor::BrightBlack => "90"@,
            TextColor::BrightRed => "91"@,
            TextColor::BrightGreen => "92"@,
            TextColor::BrightYellow => "93"@,
            TextColor::BrightBlue => "94"@,
            TextColor::BrightMagenta => "95"@,
            TextColor::BrightCyan => "96"@,
            TextColor::BrightWhite => "97"@,
        }
    }

    /// The SGR code of this foreground color, in decimal digits.
    pub fn code_str(self) -> (r: &'static str)
        ensures
            r@ == self.code_str_spec(),
    {
        match self {
            TextColor::Black => "30",
            TextColor::Red => "31",
            TextColor::Green => "32",
            TextColor::Yellow => "33",
            TextColor::Blue => "34",
            TextColor::Magenta => "35",
            TextColor::Cyan => "36",
            TextColor::White => "37",
            TextColor::BrightBlack => "90",
            TextColor::BrightRed => "91",
            TextColor::BrightGreen => "92",
            TextColor::BrightYellow => "93",
            TextColor::BrightBlue => "94",
            TextColor::BrightMagenta => "95",
            TextColor::BrightCyan => "96",
            TextColor::BrightWhite => "97",
        }
    }
}

/// A background color code.
#[derive(Clone, Copy, Debug)]
pub enum TextBackgroundColor {
    Black,
    Red,
    Green,
    Yellow,
    Blue,
    Magenta,
    Cyan,
    White,
    BrightBlack,
    BrightRed,
    BrightGreen,
    BrightYellow,
    BrightBlue,
    BrightMagenta,
    BrightCyan,
    BrightWhite,
}

impl TextBackgroundColor {
    /// The SGR code of this background color.
    pub open spec fn code_spec(self) -> int {
        match self {
            TextBackgroundColor::Black => 40,
            TextBackgroundColor::Red => 41,
            TextBackgroundColor::Green => 42,
            TextBackgroundColor::Yellow => 43,
            TextBackgroundColor::Blue => 44,
            TextBackgroundColor::Magenta => 45,
            TextBackgroundColor::Cyan => 46,
            TextBackgroundColor::White => 47,
            TextBackgroundColor::BrightBlack => 100,
            TextBackgroundColor::BrightRed => 101,
            TextBackgroundColor::BrightGreen => 102,
            TextBackgroundColor::BrightYellow => 103,
            TextBackgroundColor::BrightBlue => 104,
            TextBackgroundColor::BrightMagenta => 105,
            TextBackgroundColor::BrightCyan => 106,
            TextBackgroundColor::BrightWhite => 107,
        }
    }

    /// The SGR code of this background color, as a number.
    pub fn code(self) -> (r: u8)
        ensures
            r as int == self.code_spec(),
    {
        match self {
            TextBackgroundColor::Black => 40,
            TextBackgroundColor::Red => 41,
            TextBackgroundColor::Green => 42,
            TextBackgroundColor::Yellow => 43,
            TextBackgroundColor::Blue => 44,
            TextBackgroundColor::Magenta => 45,
            TextBackgroundColor::Cyan => 46,
            TextBackgroundColor::White => 47,
            TextBackgroundColor::BrightBlack => 100,
            TextBackgroundColor::BrightRed => 101,
            TextBackgroundColor::BrightGreen => 102,
            TextBackgroundColor::BrightYellow => 103,
            TextBackgroundColor::BrightBlue => 104,
            TextBackgroundColor::BrightMagenta => 105,
            TextBackgroundColor::BrightCyan => 106,
            TextBackgroundColor::BrightWhite => 107,
        }
    }

    /// The SGR code of this background color, in decimal digits.
    pub open spec fn code_str_spec(self) -> Seq<char> {
        match self {
            TextBackgroundColor::Black => "40"@,
            TextBackgroundColor::Red => "41"@,
            TextBackgroundColor::Green => "42"@,
            TextBackgroundColor::Yellow => "43"@,
            TextBackgroundColor::Blue => "44"@,
            TextBackgroundColor::Magenta => "45"@,
            TextBackgroundColor::Cyan => "46"@,
            TextBackgroundColor::White => "47"@,
            TextBackgroundColor::BrightBlack => "100"@,
            TextBackgroundColor::BrightRed => "101"@,
            TextBackgroundColor::BrightGreen => "102"@,
            TextBackgroundColor::BrightYellow => "103"@,
            TextBackgroundColor::BrightBlue => "104"@,
            TextBackgroundColor::BrightMagenta => "105"@,
            TextBackgroundColor::BrightCyan => "106"@,
            TextBackgroundColor::BrightWhite => "107"@,
        }
    }

    /// The SGR code of this background color, in decimal digits.
    pub fn code_str(self) -> (r: &'static str)
        ensures
            r@ == self.code_str_spec(),
    {
        match self {
            TextBackgroundColor::Black => "40",
            TextBackgroundColor::Red => "41",
            TextBackgroundColor::Green => "42",
            TextBackgroundColor::Yellow => "43",
            TextBackgroundColor::Blue => "44",
            TextBackgroundColor::Magenta => "45",
            TextBackgroundColor::Cyan => "46",
            TextBackgroundColor::White => "47",
            TextBackgroundColor::BrightBlack => "100",
            TextBackgroundColor::BrightRed => "101",
            TextBackgroundColor::BrightGreen => "102",
            TextBackgroundColor::BrightYellow => "103",
            TextBackgroundColor::BrightBlue => "104",
            TextBackgroundColor::BrightMagenta => "105",
            TextBackgroundColor::BrightCyan => "106",
            TextBackgroundColor::BrightWhite => "107",
        }
    }
}

/// The characters of a colored text leaf: a color escape prefix, the text,
/// and a reset suffix.
pub open spec fn text_leaf_chars(
    text: Seq<char>,
    fg: TextColor,
    bg: TextBackgroundColor,
) -> Seq<char> {
    "\x1b["@ + fg.code_str_spec() + ";"@ + bg.code_str_spec() + "m"@ + text + "\x1b["@
        + TextCommand::Reset.code_str_spec() + "m"@
}

/// A small piece of text, not a full component.  The color escape sequences
/// are stored as literal characters of the text, one grid cell each.
pub struct TextLeaf {
    pub text: String,
}

impl TextLeaf {
    /// Wrap a string in the escape sequences that color it.
    pub fn new(text: String, fg: TextColor, bg: TextBackgroundColor) -> (r: TextLeaf)
        ensures
            r.text@ == text_leaf_chars(text@, fg, bg),
    {
        let mut s = String::from_str("\x1b[");
        s.append(fg.code_str());
        s.append(";");
        s.append(bg.code_str());
        s.append("m");
        s.append(text.as_str());
        s.append("\x1b[");
        s.append(TextCommand::Reset.code_str());
        s.append("m");
        TextLeaf { text: s }
    }

    /// A plain leaf: the text as given, with no color escapes.
    pub fn plain(text: String) -> (r: TextLeaf)
        ensures
            r.text@ == text@,
    {
        TextLeaf { text }
    }
}

// box
/// The characters of a box's top line.
pub open spec fn box_top_chars(w: int) -> Seq<char> {
    "╭"@ + repeat_char_spec('─', (w - 2) as nat) + "╮"@
}

/// The change log a box appends: its top line, its two side lines with
/// their corners, and its bottom line.
pub open spec fn quick_box_changes(pos: Vec2, w: int, h: int) -> Seq<BufferChange> {
    changes_of_text_spec(pos.0 as int, pos.1 as int, box_top_chars(w)) + downwards_line_spec(
        pos.0 as int,
        pos.1 as int + 1,
        h,
        0,
        "│"@,
        "╰"@,
    ) + downwards_line_spec(pos.0 as int + w - 1, pos.1 as int + 1, h, 0, "│"@, "╯"@)
        + changes_of_text_spec(
        pos.0 as int + 1,
        pos.1 as int + h,
        repeat_char_spec('─', (w - 2) as nat),
    )
}

pub struct QuickBox {
    pub buffer: PseudoBuffer,
}

impl Creatable for QuickBox {
    fn new(buffer: PseudoBuffer) -> (s: Self)
        ensures
            s.buffer == buffer,
    {
        QuickBox { buffer }
    }
}

impl Component for QuickBox {
    /// The box needs room for its two corners, and its columns and rows must
    /// stay in range after its height is clipped to the window.
    open spec fn render_requires(&self, window_size: Vec2, rect: RectBoundary) -> bool {
        let h = if rect.size.1 >= window_size.1 {
            window_size.1
        } else {
            rect.size.1
        };
        &&& rect.size.0 >= 2
        &&& rect.pos.0 + rect.size.0 <= u16::MAX
        &&& rect.pos.1 + 1 + h <= u16::MAX
    }

    /// Draw a box: a top line, two sides with corners, and a bottom line.
    /// The height is clipped to the window's; the clipped rectangle and the
    /// full change log are returned.
    fn render(&mut self, window_size: Vec2, rect: RectBoundary) -> (r: DrawingResult)
        ensures
            final(self).buffer.spec_window_size() == old(self).buffer.spec_window_size(),
            ({
                let h = if rect.size.1 >= window_size.1 {
                    window_size.1
                } else {
                    rect.size.1
                };
                &&& final(self).buffer@ == old(self).buffer@ + quick_box_changes(
                    rect.pos,
                    rect.size.0 as int,
                    h as int,
                )
                &&& r is Ok
                &&& r->Ok_0.0 == (RectBoundary { pos: rect.pos, size: (rect.size.0, h) })
                &&& r->Ok_0.1@ == final(self).buffer@
            }),
    {
        let pos = rect.pos;
        // auto resize (y)
        let size = (
            rect.size.0,
            if rect.size.1 >= window_size.1 {
                window_size.1
            } else {
                rect.size.1
            },
        );
        proof {
            reveal_strlit("╭");
            reveal_strlit("╮");
            reveal_strlit("│");
            reveal_strlit("╰");
            reveal_strlit("╯");
        }

        // draw line
        let mid = crate::text::repeat_char('─', (size.0 - 2) as usize);
        let mut line_top = String::from_str("╭");
        line_top.append(mid.as_str());
        line_top.append("╮");

        let ghost c0 = self.buffer@;

        // write
        let _ = self.buffer.write_str(pos, line_top.as_str());  // top
        let ghost c1 = self.buffer@;

        DownwardsLine::new(&mut self.buffer, size.1, (pos.0, pos.1 + 1), "│", "╰");  // left
        let ghost c2 = self.buffer@;
        DownwardsLine::new(
            // right
            &mut self.buffer,
            size.1,
            (pos.0 + size.0 - 1, pos.1 + 1),
            "│",
            "╯",
        );
        let ghost c3 = self.buffer@;

        let _ = self.buffer.write_str((pos.0 + 1, pos.1 + size.1), mid.as_str());  // bottom

        proof {
            let top = changes_of_text_spec(
                pos.0 as int,
                pos.1 as int,
                box_top_chars(size.0 as int),
            );
            let left = downwards_line_spec(
                pos.0 as int,
                pos.1 as int + 1,
                size.1 as int,
                0,
                "│"@,
                "╰"@,
            );
            let right = downwards_line_spec(
                pos.0 as int + size.0 - 1,
                pos.1 as int + 1,
                size.1 as int,
                0,
                "│"@,
                "╯"@,
            );
            let bottom = changes_of_text_spec(
                pos.0 as int + 1,
                pos.1 as int + size.1,
                repeat_char_spec('─', (size.0 - 2) as nat),
            );
            assert(line_top@ =~= box_top_chars(size.0 as int));
            assert(c1 =~= c0 + top);
            assert(self.buffer@ =~= c0 + (top + left + right + bottom));
        }

        // done
        let changes = self.buffer.get_changes();
        Ok((RectBoundary { pos, size }, changes))
    }
}

// text
pub struct Text {
    pub buffer: PseudoBuffer,
}

impl Creatable for Text {
    fn new(buffer: PseudoBuffer) -> (s: Self)
        ensures
            s.buffer == buffer,
    {
        Text { buffer }
    }
}

impl Text {
    /// Draw text at the center of a row of the given width.
    pub fn render_center(&mut self, leaf: TextLeaf, pos: Vec2, parent_width: u16) -> (r:
        DrawingResult)
        requires
            leaf.text@.len() <= u16::MAX,
            leaf.text@.len() / 2 <= parent_width / 2,
            pos.0 + parent_width / 2 - leaf.text@.len() / 2 + leaf.text@.len() <= u16::MAX,
        ensures
            final(self).buffer.spec_window_size() == old(self).buffer.spec_window_size(),
            final(self).buffer@ == old(self).buffer@ + changes_of_text_spec(
                pos.0 + parent_width / 2 - leaf.text@.len() / 2,
                pos.1 as int,
                leaf.text@,
            ),
            r is Ok,
            r->Ok_0.0 == (RectBoundary {
                pos,
                size: ((leaf.text@.len() as u16), 1u16),
            }),
            r->Ok_0.1@ == final(self).buffer@,
    {
        let text = &leaf.text;
        let len = text.as_str().unicode_len();

        // get center
        let center = get_center((parent_width, 1), (len as u16, 1));

        // draw
        // center.0 + pos.0 so it's offset by the position of what we're centering around
        let _ = self.buffer.write_str((center.0 + pos.0, pos.1), text.as_str());

        // done
        let changes = self.buffer.get_changes();
        Ok((RectBoundary { pos, size: (len as u16, 1) }, changes))
    }

    /// Draw text at a given position.
    pub fn render(&mut self, leaf: TextLeaf, pos: Vec2) -> (r: DrawingResult)
        requires
            pos.0 + leaf.text@.len() <= u16::MAX,
        ensures
            final(self).buffer.spec_window_size() == old(self).buffer.spec_window_size(),
            final(self).buffer@ == old(self).buffer@ + changes_of_text_spec(
                pos.0 as int,
                pos.1 as int,
                leaf.text@,
            ),
            r is Ok,
            r->Ok_0.0 == (RectBoundary {
                pos,
                size: ((leaf.text@.len() as u16), 1u16),
            }),
            r->Ok_0.1@ == final(self).buffer@,
    {
        let text = &leaf.text;
        let len = text.as_str().unicode_len();

        // draw
        let _ = self.buffer.write_str(pos, text.as_str());

        // done
        let changes = self.buffer.get_changes();
        Ok((RectBoundary { pos, size: (len as u16, 1) }, changes))
    }

    /// Draw text at a given position as a button: an arrow marker and the
    /// text, on a white background.
    pub fn render_button(&mut self, leaf: TextLeaf, pos: Vec2) -> (r: DrawingResult)
        requires
            pos.0 + "\x1b[107;30m➚ "@.len() + leaf.text@.len() + "\x1b[0m"@.len() <= u16::MAX,
        ensures
            final(self).buffer.spec_window_size() == old(self).buffer.spec_window_size(),
            final(self).buffer@ == old(self).buffer@ + changes_of_text_spec(
                pos.0 as int,
                pos.1 as int,
                "\x1b[107;30m➚ "@ + leaf.text@ + "\x1b[0m"@,
            ),
            r is Ok,
            r->Ok_0.0 == (RectBoundary {
                pos,
                size: ((leaf.text@.len() as u16), 1u16),
            }),
            r->Ok_0.1@ == final(self).buffer@,
    {
        let text = &leaf.text;
        let len = text.as_str().unicode_len();

        // draw
        let mut line = String::from_str("\x1b[107;30m➚ ");
        line.append(text.as_str());
        line.append("\x1b[0m");
        let _ = self.buffer.write_str(pos, line.as_str());

        // done
        let changes = self.buffer.get_changes();
        Ok((RectBoundary { pos, size: (len as u16, 1) }, changes))
    }
}

impl Clickable for Text {
    fn on_click<F: FnOnce(State) -> State>(
        &mut self,
        res: RectBoundary,
        state: State,
        run: F,
    ) -> (r: State) {
        if check_click(&state, res) {
            return run(state);
        }

        state
    }
}

// status line
pub struct StatusLine {
    pub buffer: PseudoBuffer,
}

impl Creatable for StatusLine {
    fn new(buffer: PseudoBuffer) -> (s: Self)
        ensures
            s.buffer == buffer,
    {
        StatusLine { buffer }
    }
}

impl Component for StatusLine {
    /// The line's columns must stay in range: the escape prefix at the left
    /// edge, the spaces across the width, and the reset code just past it.
    open spec fn render_requires(&self, window_size: Vec2, rect: RectBoundary) -> bool {
        &&& rect.pos.0 + "\x1b[107;30m"@.len() <= u16::MAX
        &&& rect.pos.0 + rect.size.0 + "\x1b[0m"@.len() <= u16::MAX
    }

    /// Draw a status line (full width line): a white-background escape, a
    /// row of spaces, and a reset escape just past the right edge.
    fn render(&mut self, window_size: Vec2, rect: RectBoundary) -> (r: DrawingResult)
        ensures
            final(self).buffer.spec_window_size() == old(self).buffer.spec_window_size(),
            final(self).buffer@ == old(self).buffer@ + changes_of_text_spec(
                rect.pos.0 as int,
                rect.pos.1 as int,
                "\x1b[107;30m"@,
            ) + changes_of_text_spec(
                rect.pos.0 as int,
                rect.pos.1 as int,
                repeat_char_spec(' ', rect.size.0 as nat),
            ) + changes_of_text_spec(
                rect.pos.0 as int + rect.size.0 as int,
                rect.pos.1 as int,
                "\x1b[0m"@,
            ),
            r is Ok,
            r->Ok_0.0 == (RectBoundary { pos: rect.pos, size: (window_size.0, 1u16) }),
            r->Ok_0.1@ == final(self).buffer@,
    {
        // draw chars
        let _ = self.buffer.write_str(rect.pos, "\x1b[107;30m");  // white background, black text
        let spaces = crate::text::repeat_char(' ', rect.size.0 as usize);
        let _ = self.buffer.write_str(rect.pos, spaces.as_str());
        let _ = self.buffer.write_str((rect.pos.0 + rect.size.0, rect.pos.1), "\x1b[0m");

        // done
        let changes = self.buffer.get_changes();
        Ok((RectBoundary { pos: rect.pos, size: (window_size.0, 1) }, changes))
    }
}

// row
/// The column at which the next row item starts: its own offset, plus the
/// previous item's right edge when there is one.
pub open spec fn next_component_pos_spec(prev: Option<RectBoundary>, component_pos: Vec2) -> int {
    match prev {
        None => component_pos.0 as int,
        Some(p) => component_pos.0 as int + p.pos.0 as int + p.size.0 as int,
    }
}

/// The rectangle a row item occupies: one row high, as wide as its text.
pub open spec fn row_item_rect(prev: Option<RectBoundary>, item: (TextLeaf, Vec2)) -> RectBoundary {
    RectBoundary {
        pos: ((next_component_pos_spec(prev, item.1) as u16), item.1.1),
        size: ((item.0.text@.len() as u16), 1u16),
    }
}

/// May the whole row be laid out without a column leaving range?
pub open spec fn quick_row_ok(prev: Option<RectBoundary>, comps: Seq<(TextLeaf, Vec2)>) -> bool
    decreases comps.len(),
{
    comps.len() == 0 || {
        &&& next_component_pos_spec(prev, comps[0].1) + comps[0].0.text@.len() <= u16::MAX
        &&& quick_row_ok(Some(row_item_rect(prev, comps[0])), comps.skip(1))
    }
}

/// The change log the whole row returns.  Each item renders into its own
/// copy of the base log, and the copies are concatenated in item order, so
/// the base log appears once per item after the accumulator it starts from.
pub open spec fn quick_row_changes(
    base: Seq<BufferChange>,
    prev: Option<RectBoundary>,
    comps: Seq<(TextLeaf, Vec2)>,
    acc: Seq<BufferChange>,
) -> Seq<BufferChange>
    decreases comps.len(),
{
    if comps.len() == 0 {
        acc
    } else {
        quick_row_changes(
            base,
            Some(row_item_rect(prev, comps[0])),
            comps.skip(1),
            acc + base + changes_of_text_spec(
                next_component_pos_spec(prev, comps[0].1),
                comps[0].1.1 as int,
                comps[0].0.text@,
            ),
        )
    }
}

pub struct QuickRow {
    pub buffer: PseudoBuffer,
}

impl Creatable for QuickRow {
    fn new(buffer: PseudoBuffer) -> (s: Self)
        ensures
            s.buffer == buffer,
    {
        QuickRow { buffer }
    }
}

impl QuickRow {
    /// Get the correct position of the next component.
    fn get_component_position(
        &self,
        prev_component_rect: Option<RectBoundary>,
        component_pos: Vec2,
    ) -> (r: Vec2)
        requires
            next_component_pos_spec(prev_component_rect, component_pos) <= u16::MAX,
        ensures
            r.0 as int == next_component_pos_spec(prev_component_rect, component_pos),
            r.1 == component_pos.1,
    {
        if prev_component_rect.is_none() {
            // leave component as is if it's the first
            return component_pos;
        }

        let prev = prev_component_rect.unwrap();
        // new position is x + prev x + prev width; height and y are ignored
        (component_pos.0 + prev.pos.0 + prev.size.0, component_pos.1)
    }

    /// Render the row.  Components can only be simple text components; they
    /// start at `rect.pos.0` and fill the row with no gap.  `components`
    /// contains `(content, offset)` pairs.
    pub fn render(&mut self, rect: RectBoundary, components: Vec<(TextLeaf, Vec2)>) -> (r:
        DrawingResult)
        requires
            quick_row_ok(None, components@),
        ensures
            final(self).buffer == old(self).buffer,
            r is Ok,
            r->Ok_0.0 == rect,
            r->Ok_0.1@ == quick_row_changes(
                old(self).buffer@,
                None,
                components@,
                old(self).buffer@,
            ),
    {
        let ghost base = self.buffer@;
        let ghost comps0 = components@;
        let mut components = components;
        let mut prev_rect: Option<RectBoundary> = None;  // store previous row item
        let mut global_buffer = self.buffer.clone();

        while components.len() > 0
            invariant
                self.buffer@ == base,
                *self == *old(self),
                quick_row_ok(prev_rect, components@),
                quick_row_changes(base, None, comps0, base) == quick_row_changes(
                    base,
                    prev_rect,
                    components@,
                    global_buffer@,
                ),
            decreases components@.len(),
        {
            let ghost comps_pre = components@;
            let ghost acc_pre = global_buffer@;
            let ghost prev_pre = prev_rect;
            let component = components.remove(0);
            proof {
                assert(components@ =~= comps_pre.skip(1));
            }

            // create text component
            let mut text = Text::new(self.buffer.clone());

            // get correct component position
            let pos = self.get_component_position(prev_rect, component.1);

            // render
            let rendered = match text.render(component.0, pos) {
                Ok(v) => v,
                Err(e) => {
                    return Err(e);
                },
            };

            // concat global buffer with component changes
            let mut g = global_buffer.get_changes();
            let mut part = rendered.1;
            g.append(&mut part);
            global_buffer.set_changes(g);
            prev_rect = Some(rendered.0);

            proof {
                let step = changes_of_text_spec(
                    next_component_pos_spec(prev_pre, comps_pre[0].1),
                    comps_pre[0].1.1 as int,
                    comps_pre[0].0.text@,
                );
                assert(rendered.0 == row_item_rect(prev_pre, comps_pre[0]));
                assert(global_buffer@ =~= (acc_pre + base) + step);
                assert(quick_row_changes(base, prev_pre, comps_pre, acc_pre)
                    == quick_row_changes(
                    base,
                    Some(row_item_rect(prev_pre, comps_pre[0])),
                    comps_pre.skip(1),
                    acc_pre + base + step,
                ));
            }
        }
        proof {
            assert(global_buffer@ == quick_row_changes(base, None, comps0, base));
        }

        let changes = global_buffer.get_changes();
        Ok((rect, changes))
    }
}

} // verus!
