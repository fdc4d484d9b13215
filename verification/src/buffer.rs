//! Display buffer
//!
//! Writes land in a pending grid first; a commit then updates the committed
//! (on-screen) grid and reports the rows that need to be repainted.
use vstd::prelude::*;

use crate::drawing::Vec2;

verus! {

/// Result of a buffer operation that completed.
#[derive(Clone, Copy, Debug, PartialEq, Eq, Structural)]
pub enum BufState {
    /// Operation success
    Done,
}

/// Why a buffer operation was rejected.
#[derive(Clone, Copy, Debug, PartialEq, Eq, Structural)]
pub enum BufError {
    /// A row or column index lies outside the current grid dimensions.
    OutOfBounds,
}

/// The smallest renderable unit: one character together with an emptiness
/// flag.  The flag, not the character, decides whether the diff pass may
/// overwrite a committed cell.
#[derive(Clone, Copy, Debug, PartialEq, Eq, Structural)]
pub struct BufCell {
    pub character: char,
    pub empty: bool,
}

/// The blank cell used to pad rows and reset the pending grid.
pub open spec fn empty_cell() -> BufCell {
    BufCell { character: ' ', empty: true }
}

/// What [`BufCell::from_char`] returns: a space counts as empty.
pub open spec fn cell_of_char(c: char) -> BufCell {
    BufCell { character: c, empty: c == ' ' }
}

/// A row of `w` blank cells.
pub open spec fn empty_row_spec(w: nat) -> Seq<BufCell> {
    Seq::new(w, |i: int| empty_cell())
}

/// A grid of `h` blank rows of width `w`.
pub open spec fn empty_grid_spec(h: nat, w: nat) -> Seq<Seq<BufCell>> {
    Seq::new(h, |y: int| empty_row_spec(w))
}

impl DeepView for BufCell {
    type V = BufCell;

    open spec fn deep_view(&self) -> BufCell {
        *self
    }
}

impl BufCell {
    /// The blank cell.
    pub fn empty() -> (c: BufCell)
        ensures
            c == empty_cell(),
    {
        BufCell { character: ' ', empty: true }
    }

    /// Create a [`BufCell`] from a [`char`]
    pub fn from_char(character: char) -> (c: BufCell)
        ensures
            c == cell_of_char(character),
    {
        BufCell { character, empty: character == ' ' }
    }

    /// Create a row of blank cells with the specified width
    pub fn as_row(width: u16) -> (r: Row)
        ensures
            r.deep_view() == empty_row_spec(width as nat),
    {
        let mut vec: Vec<BufCell> = Vec::new();
        let mut i: u16 = 0;
        while i < width
            invariant
                i <= width,
                vec@.len() == i,
                forall|j: int| 0 <= j < i ==> vec@[j] == empty_cell(),
            decreases width - i,
        {
            vec.push(BufCell { character: ' ', empty: true });
            i = i + 1;
        }
        proof {
            assert(vec.deep_view() =~= empty_row_spec(width as nat));
        }
        vec
    }
}

pub type Row = Vec<BufCell>;

/// Does `(x, y)` name a cell of grid `g`?
pub open spec fn cell_in_bounds(g: Seq<Seq<BufCell>>, x: int, y: int) -> bool {
    0 <= y < g.len() && 0 <= x < g[y].len()
}

/// Grid `g` with the cell at `(x, y)` replaced.
pub open spec fn grid_write(g: Seq<Seq<BufCell>>, x: int, y: int, cell: BufCell) -> Seq<
    Seq<BufCell>,
> {
    g.update(y, g[y].update(x, cell))
}

/// What reading the committed grid at `(x, y)` returns.
pub open spec fn read_cell_spec(s: Seq<Seq<BufCell>>, x: int, y: int) -> Result<
    BufCell,
    BufError,
> {
    if cell_in_bounds(s, x, y) {
        Ok(s[y][x])
    } else {
        Err(BufError::OutOfBounds)
    }
}

/// The effect of one cell write on the pending grid `p` and the committed
/// grid `s`.  An empty cell erases immediately, so it goes straight to the
/// committed grid; any other cell is queued in the pending grid.
pub open spec fn write_cell_spec(
    p: Seq<Seq<BufCell>>,
    s: Seq<Seq<BufCell>>,
    x: int,
    y: int,
    cell: BufCell,
) -> Result<(Seq<Seq<BufCell>>, Seq<Seq<BufCell>>), BufError> {
    if cell.empty {
        if cell_in_bounds(s, x, y) {
            Ok((p, grid_write(s, x, y, cell)))
        } else {
            Err(BufError::OutOfBounds)
        }
    } else {
        if cell_in_bounds(p, x, y) {
            Ok((grid_write(p, x, y, cell), s))
        } else {
            Err(BufError::OutOfBounds)
        }
    }
}

/// The effect of writing a string: one cell per character at consecutive
/// columns, stopping at the first write that fails.  Returns the two grids
/// after the writes that happened, and the error if one stopped the run.
pub open spec fn write_str_spec(
    p: Seq<Seq<BufCell>>,
    s: Seq<Seq<BufCell>>,
    x: int,
    y: int,
    text: Seq<char>,
) -> (Seq<Seq<BufCell>>, Seq<Seq<BufCell>>, Option<BufError>)
    decreases text.len(),
{
    if text.len() == 0 {
        (p, s, None)
    } else {
        match write_cell_spec(p, s, x, y, cell_of_char(text[0])) {
            Ok(ps) => write_str_spec(ps.0, ps.1, x + 1, y, text.skip(1)),
            Err(e) => (p, s, Some(e)),
        }
    }
}

/// The effect of overwriting columns `[start, end)` of pending row `y`.
pub open spec fn fill_range_spec(
    p: Seq<Seq<BufCell>>,
    start: int,
    end: int,
    y: int,
    cell: BufCell,
) -> Result<Seq<Seq<BufCell>>, BufError> {
    if 0 <= y < p.len() {
        Ok(
            p.update(
                y,
                Seq::new(p[y].len(), |x: int| if start <= x < end { cell } else { p[y][x] }),
            ),
        )
    } else {
        Err(BufError::OutOfBounds)
    }
}

/// One queued write: a position and the cell to put there.
#[derive(Clone, Copy, Debug, PartialEq)]
pub struct BufferChange {
    pub loc: Vec2,
    pub cell: BufCell,
}

impl DeepView for BufferChange {
    type V = BufferChange;

    open spec fn deep_view(&self) -> BufferChange {
        *self
    }
}

/// The effect of absorbing a change log entry by entry: an entry equal to the
/// committed cell at its position is dropped, any other entry is forwarded to
/// the cell write.  Stops at the first entry that fails.
pub open spec fn absorb_spec(
    p: Seq<Seq<BufCell>>,
    s: Seq<Seq<BufCell>>,
    changes: Seq<BufferChange>,
) -> (Seq<Seq<BufCell>>, Seq<Seq<BufCell>>, Option<BufError>)
    decreases changes.len(),
{
    if changes.len() == 0 {
        (p, s, None)
    } else {
        let ch = changes[0];
        match read_cell_spec(s, ch.loc.0 as int, ch.loc.1 as int) {
            Err(e) => (p, s, Some(e)),
            Ok(cur) => {
                if cur == ch.cell {
                    absorb_spec(p, s, changes.skip(1))
                } else {
                    match write_cell_spec(p, s, ch.loc.0 as int, ch.loc.1 as int, ch.cell) {
                        Ok(ps) => absorb_spec(ps.0, ps.1, changes.skip(1)),
                        Err(e) => (p, s, Some(e)),
                    }
                }
            },
        }
    }
}

/// The characters of a row, in column order.
pub open spec fn row_chars_spec(row: Seq<BufCell>) -> Seq<char> {
    Seq::new(row.len(), |x: int| row[x].character)
}

/// A pending row asks for a repaint when it holds any queued write (it is not
/// the all-blank row of the buffer's width) and differs from the committed row.
pub open spec fn row_dirty_spec(p_row: Seq<BufCell>, s_row: Seq<BufCell>, w: nat) -> bool {
    p_row != empty_row_spec(w) && s_row != p_row
}

/// How one pending cell lands on a committed cell during a commit: an equal
/// character leaves the committed cell, an empty pending cell never erases a
/// non-empty committed cell, anything else overwrites.
pub open spec fn merge_cell_spec(p: BufCell, s: BufCell) -> BufCell {
    if p.empty && !s.empty {
        s
    } else if s.character == p.character {
        s
    } else {
        p
    }
}

/// A committed row after a pending row is merged onto it, cell by cell.
/// Pending cells beyond the committed row's width are dropped.
pub open spec fn merge_row_spec(p: Seq<BufCell>, s: Seq<BufCell>) -> Seq<BufCell> {
    Seq::new(
        s.len(),
        |x: int|
            if x < p.len() {
                merge_cell_spec(p[x], s[x])
            } else {
                s[x]
            },
    )
}

/// The whole committed grid after a commit: dirty rows are merged, the rest
/// stay.  Pending rows with no committed counterpart are skipped.
pub open spec fn commit_screen_spec(p: Seq<Seq<BufCell>>, s: Seq<Seq<BufCell>>, w: nat) -> Seq<
    Seq<BufCell>,
> {
    Seq::new(
        s.len(),
        |y: int|
            if y < p.len() && row_dirty_spec(p[y], s[y], w) {
                merge_row_spec(p[y], s[y])
            } else {
                s[y]
            },
    )
}

/// The repaints a commit emits for the first `n` pending rows, in row order:
/// one `(row, characters)` pair per dirty row, carrying the merged row.
pub open spec fn commit_output_upto(
    p: Seq<Seq<BufCell>>,
    s: Seq<Seq<BufCell>>,
    w: nat,
    n: int,
) -> Seq<(int, Seq<char>)>
    decreases n,
{
    if n <= 0 {
        Seq::empty()
    } else {
        let prev = commit_output_upto(p, s, w, n - 1);
        if n - 1 < s.len() && row_dirty_spec(p[n - 1], s[n - 1], w) {
            prev.push((n - 1, row_chars_spec(merge_row_spec(p[n - 1], s[n - 1]))))
        } else {
            prev
        }
    }
}

/// All repaints a commit emits.
pub open spec fn commit_output_spec(p: Seq<Seq<BufCell>>, s: Seq<Seq<BufCell>>, w: nat) -> Seq<
    (int, Seq<char>),
> {
    commit_output_upto(p, s, w, p.len() as int)
}

/// One whole-row repaint: the characters to draw at column 0 of row `y`.
#[derive(Debug, PartialEq)]
pub struct RowWrite {
    pub y: u16,
    pub text: Vec<char>,
}

/// Do the emitted repaints match the commit's specified output, row for row
/// and character for character?
pub open spec fn rowwrites_match(out: Seq<RowWrite>, spec_out: Seq<(int, Seq<char>)>) -> bool {
    &&& out.len() == spec_out.len()
    &&& forall|k: int|
        0 <= k < out.len() ==> #[trigger] out[k].y as int == spec_out[k].0 && out[k].text@
            == spec_out[k].1
}

/// `row` padded with blank cells or truncated to width `w`.
pub open spec fn resize_row_spec(row: Seq<BufCell>, w: nat) -> Seq<BufCell> {
    Seq::new(w, |x: int| if x < row.len() { row[x] } else { empty_cell() })
}

/// `g` resized: every kept row padded or truncated to the new width first,
/// then rows appended or dropped to reach the new height.
pub open spec fn resize_grid_spec(g: Seq<Seq<BufCell>>, size: Vec2) -> Seq<Seq<BufCell>> {
    Seq::new(
        size.1 as nat,
        |y: int|
            if y < g.len() {
                resize_row_spec(g[y], size.0 as nat)
            } else {
                empty_row_spec(size.0 as nat)
            },
    )
}

/// The change log a rendering pass produces for a text write: one entry per
/// character, at consecutive columns.
pub open spec fn changes_of_text_spec(x: int, y: int, text: Seq<char>) -> Seq<BufferChange> {
    Seq::new(
        text.len(),
        |i: int| BufferChange { loc: ((x + i) as u16, y as u16), cell: cell_of_char(text[i]) },
    )
}

/// Something cells can be written to: the double buffer itself, or a change
/// log that records the writes for later replay.
pub trait BufferWrite {
    /// Write one cell at a position.
    fn write_cell(&mut self, pos: Vec2, cell: BufCell) -> (r: Result<BufState, BufError>);

    /// Write a string, one cell per character at consecutive columns starting
    /// at `pos`.
    fn write_str(&mut self, pos: Vec2, text: &str) -> (r: Result<BufState, BufError>)
        requires
            pos.0 + text@.len() <= u16::MAX,
    ;
}

/// The double buffer: a pending grid that collects writes and a committed
/// grid that mirrors what is on screen.
pub struct Buffer {
    pub size: Vec2,
    /// Vector of [`Row`]s, pre commit
    pub vec: Vec<Row>,
    /// Vector of [`Row`]s, what's on screen
    pub screen_vec: Vec<Row>,
}

impl Buffer {
    /// The pending grid as a sequence of rows of cells.
    pub open spec fn pending(&self) -> Seq<Seq<BufCell>> {
        self.vec.deep_view()
    }

    /// The committed grid as a sequence of rows of cells.
    pub open spec fn screen(&self) -> Seq<Seq<BufCell>> {
        self.screen_vec.deep_view()
    }

    /// Both grids have exactly the buffer's size.
    pub open spec fn well_formed(&self) -> bool {
        &&& self.pending().len() == self.size.1
        &&& self.screen().len() == self.size.1
        &&& forall|y: int|
            0 <= y < self.size.1 ==> #[trigger] self.pending()[y].len() == self.size.0
        &&& forall|y: int|
            0 <= y < self.size.1 ==> #[trigger] self.screen()[y].len() == self.size.0
    }

    /// Create a new buffer of the given size, with both grids blank.
    pub fn new(size: Vec2) -> (b: Buffer)
        ensures
            b.size == size,
            b.pending() == empty_grid_spec(size.1 as nat, size.0 as nat),
            b.screen() == empty_grid_spec(size.1 as nat, size.0 as nat),
            b.well_formed(),
    {
        let b = Buffer {
            size,
            vec: Self::make_empty_grid(size),
            screen_vec: Self::make_empty_grid(size),
        };
        proof {
            assert forall|y: int| 0 <= y < size.1 implies #[trigger] b.pending()[y].len() == size.0
                && b.screen()[y].len() == size.0 by {
                assert(b.pending()[y] == empty_row_spec(size.0 as nat));
                assert(b.screen()[y] == empty_row_spec(size.0 as nat));
            }
        }
        b
    }

    fn make_empty_grid(size: Vec2) -> (g: Vec<Row>)
        ensures
            g.deep_view() == empty_grid_spec(size.1 as nat, size.0 as nat),
    {
        let mut vec: Vec<Row> = Vec::new();
        let mut y: u16 = 0;
        while y < size.1
            invariant
                y <= size.1,
                vec@.len() == y,
                forall|j: int|
                    0 <= j < y ==> #[trigger] vec@[j].deep_view() == empty_row_spec(size.0 as nat),
            decreases size.1 - y,
        {
            vec.push(BufCell::as_row(size.0));
            y = y + 1;
        }
        proof {
            assert(vec.deep_view() =~= empty_grid_spec(size.1 as nat, size.0 as nat));
        }
        vec
    }

    /// Get a cell of the committed grid by its position.
    pub fn get_cell(&self, pos: Vec2) -> (r: Result<BufCell, BufError>)
        ensures
            r == read_cell_spec(self.screen(), pos.0 as int, pos.1 as int),
    {
        let y = pos.1 as usize;
        let x = pos.0 as usize;
        if y < self.screen_vec.len() {
            let row = &self.screen_vec[y];
            if x < row.len() {
                proof {
                    assert(self.screen()[y as int][x as int] == row@[x as int]);
                }
                Ok(row[x])
            } else {
                Err(BufError::OutOfBounds)
            }
        } else {
            Err(BufError::OutOfBounds)
        }
    }

    /// Resize the buffer.  Rows and columns gained by growing are blank;
    /// shrinking loses the cells that fall outside the new size.
    pub fn resize(&mut self, size: Vec2) -> (r: Result<BufState, BufError>)
        ensures
            r == Ok::<BufState, BufError>(BufState::Done),
            final(self).size == size,
            final(self).pending() == resize_grid_spec(old(self).pending(), size),
            final(self).screen() == resize_grid_spec(old(self).screen(), size),
            final(self).well_formed(),
    {
        self.vec = Self::resize_vec(&self.vec, size);
        self.screen_vec = Self::resize_vec(&self.screen_vec, size);
        self.size = size;
        proof {
            assert forall|y: int| 0 <= y < size.1 implies #[trigger] self.pending()[y].len()
                == size.0 && self.screen()[y].len() == size.0 by {
                assert(self.pending()[y].len() == size.0);
                assert(self.screen()[y].len() == size.0);
            }
        }
        Ok(BufState::Done)
    }

    /// Overwrite columns `[start, end)` of pending row `row_y` with copies of
    /// one cell.
    pub fn fill_range(&mut self, start: u16, end: u16, row_y: u16, cell: BufCell) -> (r: Result<
        BufState,
        BufError,
    >)
        requires
            row_y < old(self).pending().len() ==> end as int <= old(self).pending()[
                row_y as int
            ].len(),
        ensures
            final(self).size == old(self).size,
            final(self).screen() == old(self).screen(),
            match fill_range_spec(
                old(self).pending(),
                start as int,
                end as int,
                row_y as int,
                cell,
            ) {
                Ok(p2) => r == Ok::<BufState, BufError>(BufState::Done) && final(self).pending()
                    == p2,
                Err(e) => r == Err::<BufState, BufError>(e) && final(self).pending() == old(
                    self,
                ).pending(),
            },
    {
        let y = row_y as usize;
        if y >= self.vec.len() {
            return Err(BufError::OutOfBounds);
        }
        let ghost p0 = self.pending();
        let mut col: u16 = start;
        while col < end
            invariant
                start <= col <= end || col == start,
                y < self.vec@.len(),
                self.vec@.len() == p0.len(),
                end <= self.vec@[y as int]@.len(),
                self.size == old(self).size,
                self.screen_vec == old(self).screen_vec,
                forall|j: int| 0 <= j < p0.len() && j != y ==> self.vec@[j] == old(self).vec@[j],
                self.vec@[y as int]@.len() == p0[y as int].len(),
                forall|x: int|
                    0 <= x < p0[y as int].len() ==> #[trigger] self.vec@[y as int]@[x] == (
                    if start <= x < col {
                        cell
                    } else {
                        p0[y as int][x]
                    }),
            decreases end - col,
        {
            let row = &mut self.vec[y];
            row[col as usize] = cell;
            col = col + 1;
        }
        proof {
            assert(self.pending() =~~= fill_range_spec(
                p0,
                start as int,
                end as int,
                row_y as int,
                cell,
            ).unwrap());
        }
        Ok(BufState::Done)
    }

    /// Absorb the changes pulled from a [`PseudoBuffer`].  An entry equal to
    /// the committed cell at its position is dropped silently; any other
    /// entry is forwarded to [`Buffer::write_cell`].
    pub fn consume_changes(&mut self, changes: Vec<BufferChange>) -> (r: Result<
        BufState,
        BufError,
    >)
        ensures
            final(self).size == old(self).size,
            ({
                let step = absorb_spec(old(self).pending(), old(self).screen(), changes@);
                &&& final(self).pending() == step.0
                &&& final(self).screen() == step.1
                &&& r == match step.2 {
                    None => Ok::<BufState, BufError>(BufState::Done),
                    Some(e) => Err::<BufState, BufError>(e),
                }
            }),
    {
        proof {
            assert(changes@.skip(0) =~= changes@);
        }
        let n = changes.len();
        let mut i: usize = 0;
        while i < n
            invariant
                i <= n,
                n == changes@.len(),
                self.size == old(self).size,
                absorb_spec(old(self).pending(), old(self).screen(), changes@) == absorb_spec(
                    self.pending(),
                    self.screen(),
                    changes@.skip(i as int),
                ),
            decreases n - i,
        {
            let change = changes[i];
            proof {
                assert(changes@.skip(i as int)[0] == changes@[i as int]);
                assert(changes@.skip(i as int).skip(1) =~= changes@.skip(i as int + 1));
            }
            let cell = match self.get_cell(change.loc) {
                Ok(c) => c,
                Err(e) => {
                    return Err(e);
                },
            };
            let is_changed: bool = cell.character != change.cell.character || cell.empty
                != change.cell.empty;
            if is_changed {
                if let Err(e) = self.write_cell(change.loc, change.cell) {
                    return Err(e);
                }
            }
            i = i + 1;
        }
        Ok(BufState::Done)
    }

    /// Commit the pending grid: merge every dirty row onto the committed
    /// grid, emit one whole-row repaint per dirty row, and reset the pending
    /// grid to all-blank rows of the current width.
    pub fn commit(&mut self) -> (out: Vec<RowWrite>)
        requires
            old(self).pending().len() <= u16::MAX,
        ensures
            final(self).size == old(self).size,
            final(self).screen() == commit_screen_spec(
                old(self).pending(),
                old(self).screen(),
                old(self).size.0 as nat,
            ),
            final(self).pending() == empty_grid_spec(
                old(self).pending().len(),
                old(self).size.0 as nat,
            ),
            rowwrites_match(
                out@,
                commit_output_spec(old(self).pending(), old(self).screen(), old(self).size.0 as nat),
            ),
    {
        let w = self.size.0;
        let empty_row = BufCell::as_row(w);
        let ghost p0 = self.pending();
        let ghost s0 = self.screen();
        let mut out: Vec<RowWrite> = Vec::new();
        let h = self.vec.len();
        let mut y: usize = 0;
        while y < h
            invariant
                y <= h,
                h == p0.len(),
                p0 == old(self).pending(),
                s0 == old(self).screen(),
                p0.len() <= u16::MAX,
                self.size == old(self).size,
                w == self.size.0,
                empty_row.deep_view() == empty_row_spec(w as nat),
                self.pending() == p0,
                self.screen().len() == s0.len(),
                forall|j: int| y <= j < s0.len() ==> #[trigger] self.screen()[j] == s0[j],
                forall|j: int|
                    0 <= j < y && j < s0.len() ==> #[trigger] self.screen()[j]
                        == commit_screen_spec(p0, s0, w as nat)[j],
                out@.len() == commit_output_upto(p0, s0, w as nat, y as int).len(),
                forall|k: int|
                    0 <= k < out@.len() ==> #[trigger] out@[k].y as int == commit_output_upto(
                        p0,
                        s0,
                        w as nat,
                        y as int,
                    )[k].0 && out@[k].text@ == commit_output_upto(p0, s0, w as nat, y as int)[k].1,
            decreases h - y,
        {
            proof {
                assert(self.vec@[y as int].deep_view() == p0[y as int]);
                assert(self.screen_vec@.len() == s0.len());
                if y < s0.len() {
                    assert(self.screen()[y as int] == s0[y as int]);
                    assert(self.screen_vec@[y as int].deep_view() == s0[y as int]);
                }
            }
            let dirty = y < self.screen_vec.len() && !Self::row_eq(&self.vec[y], &empty_row)
                && !Self::row_eq(&self.vec[y], &self.screen_vec[y]);
            proof {
                assert(y < u16::MAX as usize);
                if dirty {
                    assert(row_dirty_spec(p0[y as int], s0[y as int], w as nat));
                } else if y < s0.len() {
                    assert(!row_dirty_spec(p0[y as int], s0[y as int], w as nat));
                }
            }
            if dirty {
                let merged = Self::merge_rows(&self.vec[y], &self.screen_vec[y]);
                let text = Self::row_text(&merged);
                let ghost scr_pre = self.screen();
                let ghost sv_pre = self.screen_vec@;
                self.screen_vec[y] = merged;
                out.push(RowWrite { y: y as u16, text });
                proof {
                    assert(self.screen_vec@ == sv_pre.update(y as int, merged));
                    assert forall|j: int| 0 <= j < s0.len() && j != y implies #[trigger] self
                        .screen()[j] == scr_pre[j] by {
                        assert(self.screen_vec@[j] == sv_pre[j]);
                        assert(self.screen()[j] == sv_pre[j].deep_view());
                        assert(scr_pre[j] == sv_pre[j].deep_view());
                    }
                    assert(self.screen()[y as int] == merged.deep_view());
                    assert(self.screen()[y as int] == merge_row_spec(p0[y as int], s0[y as int]));
                    assert(self.screen()[y as int] == commit_screen_spec(p0, s0, w as nat)[
                        y as int
                    ]);
                }
            }
            y = y + 1;
        }
        proof {
            assert(self.screen() =~= commit_screen_spec(p0, s0, w as nat));
        }
        self.vec = Self::make_rows(h, w);
        proof {
            assert(self.pending() =~= empty_grid_spec(p0.len(), w as nat));
        }
        out
    }

    fn make_rows(h: usize, w: u16) -> (g: Vec<Row>)
        ensures
            g.deep_view() == empty_grid_spec(h as nat, w as nat),
    {
        let mut vec: Vec<Row> = Vec::new();
        let mut y: usize = 0;
        while y < h
            invariant
                y <= h,
                vec@.len() == y,
                forall|j: int|
                    0 <= j < y ==> #[trigger] vec@[j].deep_view() == empty_row_spec(w as nat),
            decreases h - y,
        {
            vec.push(BufCell::as_row(w));
            y = y + 1;
        }
        proof {
            assert(vec.deep_view() =~= empty_grid_spec(h as nat, w as nat));
        }
        vec
    }

    /// Do two rows hold the same cells?
    fn row_eq(a: &Row, b: &Row) -> (r: bool)
        ensures
            r == (a.deep_view() == b.deep_view()),
    {
        if a.len() != b.len() {
            proof {
                assert(a.deep_view().len() == a@.len());
                assert(b.deep_view().len() == b@.len());
            }
            return false;
        }
        let mut i: usize = 0;
        while i < a.len()
            invariant
                i <= a@.len(),
                a@.len() == b@.len(),
                forall|j: int| 0 <= j < i ==> a@[j] == b@[j],
            decreases a@.len() - i,
        {
            if a[i].character != b[i].character || a[i].empty != b[i].empty {
                proof {
                    assert(a.deep_view()[i as int] != b.deep_view()[i as int]);
                }
                return false;
            }
            i = i + 1;
        }
        proof {
            assert(a.deep_view() =~= b.deep_view());
        }
        true
    }

    /// Merge a pending row onto a committed row, cell by cell.
    fn merge_rows(p: &Row, s: &Row) -> (r: Row)
        ensures
            r.deep_view() == merge_row_spec(p.deep_view(), s.deep_view()),
    {
        let mut out: Vec<BufCell> = Vec::new();
        let mut x: usize = 0;
        while x < s.len()
            invariant
                x <= s@.len(),
                out@.len() == x,
                forall|j: int|
                    0 <= j < x ==> #[trigger] out@[j] == merge_row_spec(
                        p.deep_view(),
                        s.deep_view(),
                    )[j],
            decreases s@.len() - x,
        {
            let cell = if x < p.len() {
                let pc = p[x];
                let sc = s[x];
                if pc.empty && !sc.empty {
                    sc
                } else if sc.character == pc.character {
                    sc
                } else {
                    pc
                }
            } else {
                s[x]
            };
            out.push(cell);
            x = x + 1;
        }
        proof {
            assert(out.deep_view() =~= merge_row_spec(p.deep_view(), s.deep_view()));
        }
        out
    }

    /// The characters of a row, in column order.
    fn row_text(row: &Row) -> (t: Vec<char>)
        ensures
            t@ == row_chars_spec(row.deep_view()),
    {
        let mut out: Vec<char> = Vec::new();
        let mut x: usize = 0;
        while x < row.len()
            invariant
                x <= row@.len(),
                out@.len() == x,
                forall|j: int| 0 <= j < x ==> out@[j] == row@[j].character,
            decreases row@.len() - x,
        {
            out.push(row[x].character);
            x = x + 1;
        }
        proof {
            assert(out@ =~= row_chars_spec(row.deep_view()));
        }
        out
    }

    /// Resize a single grid to match the given size
    fn resize_vec(vec: &Vec<Row>, size: Vec2) -> (r: Vec<Row>)
        ensures
            r.deep_view() == resize_grid_spec(vec.deep_view(), size),
    {
        let h = size.1 as usize;
        let mut out: Vec<Row> = Vec::new();
        let mut y: usize = 0;
        while y < h && y < vec.len()
            invariant
                y <= h,
                y <= vec@.len(),
                out@.len() == y,
                forall|j: int|
                    0 <= j < y ==> #[trigger] out@[j].deep_view() == resize_row_spec(
                        vec@[j].deep_view(),
                        size.0 as nat,
                    ),
            decreases h - y,
        {
            out.push(Self::resize_row(&vec[y], size.0));
            y = y + 1;
        }
        while out.len() < h
            invariant
                out@.len() <= h,
                out@.len() >= y,
                y <= vec@.len(),
                y == if h <= vec@.len() {
                    h as int
                } else {
                    vec@.len() as int
                },
                forall|j: int|
                    0 <= j < y ==> #[trigger] out@[j].deep_view() == resize_row_spec(
                        vec@[j].deep_view(),
                        size.0 as nat,
                    ),
                forall|j: int|
                    y <= j < out@.len() ==> #[trigger] out@[j].deep_view() == empty_row_spec(
                        size.0 as nat,
                    ),
            decreases h - out.len(),
        {
            out.push(BufCell::as_row(size.0));
        }
        proof {
            assert(out.deep_view() =~= resize_grid_spec(vec.deep_view(), size));
        }
        out
    }

    fn resize_row(row: &Row, width: u16) -> (r: Row)
        ensures
            r.deep_view() == resize_row_spec(row.deep_view(), width as nat),
    {
        let w = width as usize;
        let mut out: Vec<BufCell> = Vec::new();
        let mut x: usize = 0;
        while x < w && x < row.len()
            invariant
                x <= w,
                x <= row@.len(),
                out@.len() == x,
                forall|j: int| 0 <= j < x ==> out@[j] == row@[j],
            decreases w - x,
        {
            out.push(row[x]);
            x = x + 1;
        }
        while out.len() < w
            invariant
                out@.len() <= w,
                out@.len() >= x,
                x <= row@.len(),
                x == if w <= row@.len() {
                    w as int
                } else {
                    row@.len() as int
                },
                forall|j: int| 0 <= j < x ==> out@[j] == row@[j],
                forall|j: int| x <= j < out@.len() ==> out@[j] == empty_cell(),
            decreases w - out.len(),
        {
            out.push(BufCell { character: ' ', empty: true });
        }
        proof {
            assert(out.deep_view() =~= resize_row_spec(row.deep_view(), width as nat));
        }
        out
    }
}

impl BufferWrite for Buffer {
    /// Write one cell.  A non-empty cell is queued in the pending grid; an
    /// empty (erasing) cell takes effect on the committed grid at once.
    fn write_cell(&mut self, pos: Vec2, cell: BufCell) -> (r: Result<BufState, BufError>)
        ensures
            final(self).size == old(self).size,
            match write_cell_spec(
                old(self).pending(),
                old(self).screen(),
                pos.0 as int,
                pos.1 as int,
                cell,
            ) {
                Ok(ps) => {
                    &&& r == Ok::<BufState, BufError>(BufState::Done)
                    &&& final(self).pending() == ps.0
                    &&& final(self).screen() == ps.1
                },
                Err(e) => {
                    &&& r == Err::<BufState, BufError>(e)
                    &&& final(self).pending() == old(self).pending()
                    &&& final(self).screen() == old(self).screen()
                },
            },
    {
        let y = pos.1 as usize;
        let x = pos.0 as usize;
        if cell.empty {
            if y < self.screen_vec.len() && x < self.screen_vec[y].len() {
                let row = &mut self.screen_vec[y];
                row[x] = cell;
                proof {
                    assert(self.screen() =~~= grid_write(
                        old(self).screen(),
                        x as int,
                        y as int,
                        cell,
                    ));
                }
                Ok(BufState::Done)
            } else {
                Err(BufError::OutOfBounds)
            }
        } else {
            if y < self.vec.len() && x < self.vec[y].len() {
                let row = &mut self.vec[y];
                row[x] = cell;
                proof {
                    assert(self.pending() =~~= grid_write(
                        old(self).pending(),
                        x as int,
                        y as int,
                        cell,
                    ));
                }
                Ok(BufState::Done)
            } else {
                Err(BufError::OutOfBounds)
            }
        }
    }

    /// Write a string, one cell per character at consecutive columns.
    /// Stops at the first character whose write fails.
    fn write_str(&mut self, pos: Vec2, text: &str) -> (r: Result<BufState, BufError>)
        ensures
            final(self).size == old(self).size,
            ({
                let step = write_str_spec(
                    old(self).pending(),
                    old(self).screen(),
                    pos.0 as int,
                    pos.1 as int,
                    text@,
                );
                &&& final(self).pending() == step.0
                &&& final(self).screen() == step.1
                &&& r == match step.2 {
                    None => Ok::<BufState, BufError>(BufState::Done),
                    Some(e) => Err::<BufState, BufError>(e),
                }
            }),
    {
        let len = text.unicode_len();
        proof {
            assert(text@.skip(0) =~= text@);
        }
        let mut i: usize = 0;
        while i < len
            invariant
                i <= len,
                len == text@.len(),
                pos.0 + len <= u16::MAX,
                self.size == old(self).size,
                write_str_spec(
                    old(self).pending(),
                    old(self).screen(),
                    pos.0 as int,
                    pos.1 as int,
                    text@,
                ) == write_str_spec(
                    self.pending(),
                    self.screen(),
                    pos.0 + i as int,
                    pos.1 as int,
                    text@.skip(i as int),
                ),
            decreases len - i,
        {
            let c = text.get_char(i);
            proof {
                assert(text@.skip(i as int)[0] == text@[i as int]);
                assert(text@.skip(i as int).skip(1) =~= text@.skip(i as int + 1));
            }
            let res = self.write_cell((pos.0 + i as u16, pos.1), BufCell::from_char(c));
            if let Err(e) = res {
                return Err(e);
            }
            i = i + 1;
        }
        proof {
            assert(text@.skip(len as int) =~= Seq::<char>::empty());
        }
        Ok(BufState::Done)
    }
}

/// A buffer stand-in that receives writes like the real buffer but only
/// records them, as a change log that can be pulled with
/// [`PseudoBuffer::get_changes`] and replayed through
/// [`Buffer::consume_changes`].
pub struct PseudoBuffer {
    pub window_size: Vec2,
    /// Changes are append only.  To undo a change, append a newer entry for
    /// the same position: on replay the later entry wins.
    changes: Vec<BufferChange>,
}

impl View for PseudoBuffer {
    type V = Seq<BufferChange>;

    closed spec fn view(&self) -> Seq<BufferChange> {
        self.changes@
    }
}

impl PseudoBuffer {
    /// The window size this change log was created for.
    pub closed spec fn spec_window_size(&self) -> Vec2 {
        self.window_size
    }
}

impl PseudoBuffer {
    /// A fresh change log for a rendering pass over a window of this size.
    pub fn new(window_size: Vec2) -> (b: PseudoBuffer)
        ensures
            b.spec_window_size() == window_size,
            b@ == Seq::<BufferChange>::empty(),
    {
        PseudoBuffer { window_size, changes: Vec::new() }
    }

    /// Get all changes to the buffer
    pub fn get_changes(&self) -> (r: Vec<BufferChange>)
        ensures
            r@ == self@,
    {
        let mut out: Vec<BufferChange> = Vec::new();
        let mut i: usize = 0;
        while i < self.changes.len()
            invariant
                i <= self.changes@.len(),
                out@ == self.changes@.take(i as int),
            decreases self.changes@.len() - i,
        {
            out.push(self.changes[i]);
            proof {
                assert(out@ =~= self.changes@.take(i as int + 1));
            }
            i = i + 1;
        }
        proof {
            assert(out@ =~= self.changes@);
        }
        out
    }

    /// Replace the whole change log.
    pub fn set_changes(&mut self, changes: Vec<BufferChange>)
        ensures
            final(self).spec_window_size() == old(self).spec_window_size(),
            final(self)@ == changes@,
    {
        self.changes = changes;
    }
}

impl BufferWrite for PseudoBuffer {
    fn write_cell(&mut self, pos: Vec2, cell: BufCell) -> (r: Result<BufState, BufError>)
        ensures
            final(self).spec_window_size() == old(self).spec_window_size(),
            final(self)@ == old(self)@.push(BufferChange { loc: pos, cell }),
            r == Ok::<BufState, BufError>(BufState::Done),
    {
        self.changes.push(BufferChange { loc: pos, cell });
        Ok(BufState::Done)
    }

    fn write_str(&mut self, pos: Vec2, text: &str) -> (r: Result<BufState, BufError>)
        ensures
            final(self).spec_window_size() == old(self).spec_window_size(),
            final(self)@ == old(self)@ + changes_of_text_spec(pos.0 as int, pos.1 as int, text@),
            r == Ok::<BufState, BufError>(BufState::Done),
    {
        let len = text.unicode_len();
        let mut i: usize = 0;
        while i < len
            invariant
                i <= len,
                len == text@.len(),
                pos.0 + len <= u16::MAX,
                self.spec_window_size() == old(self).spec_window_size(),
                self@ == old(self)@ + changes_of_text_spec(
                    pos.0 as int,
                    pos.1 as int,
                    text@.take(i as int),
                ),
            decreases len - i,
        {
            let c = text.get_char(i);
            let cell = BufCell::from_char(c);
            let res = self.write_cell((pos.0 + i as u16, pos.1), cell);
            proof {
                assert(self@ =~= old(self)@ + changes_of_text_spec(
                    pos.0 as int,
                    pos.1 as int,
                    text@.take(i as int + 1),
                ));
            }
            i = i + 1;
        }
        proof {
            assert(text@.take(len as int) =~= text@);
        }
        Ok(BufState::Done)
    }
}

/// Law: a write at an in-range position followed by a commit leaves the
/// written character readable from the committed grid.  For an erasing
/// (empty) cell this holds when no cell with a different character is
/// queued at that position — such a queued write wins the commit.
pub proof fn lemma_write_commit_read(
    p: Seq<Seq<BufCell>>,
    s: Seq<Seq<BufCell>>,
    w: nat,
    x: int,
    y: int,
    cell: BufCell,
)
    requires
        p.len() == s.len(),
        forall|j: int| 0 <= j < p.len() ==> #[trigger] p[j].len() == w,
        forall|j: int| 0 <= j < s.len() ==> #[trigger] s[j].len() == w,
        0 <= y < s.len(),
        0 <= x < w,
        cell.empty ==> p[y][x].character == cell.character,
    ensures
        write_cell_spec(p, s, x, y, cell) is Ok,
        ({
            let ps = write_cell_spec(p, s, x, y, cell).unwrap();
            let s2 = commit_screen_spec(ps.0, ps.1, w);
            read_cell_spec(s2, x, y) == Ok::<BufCell, BufError>(s2[y][x]) && s2[y][x].character
                == cell.character
        }),
{
    let ps = write_cell_spec(p, s, x, y, cell).unwrap();
    let p1 = ps.0;
    let s1 = ps.1;
    let s2 = commit_screen_spec(p1, s1, w);
    if cell.empty {
        assert(p1 == p && s1[y][x] == cell);
        if row_dirty_spec(p1[y], s1[y], w) {
            assert(s2[y][x] == merge_cell_spec(p[y][x], cell));
            assert(merge_cell_spec(p[y][x], cell).character == cell.character);
        } else {
            assert(s2[y] == s1[y]);
        }
    } else {
        assert(s1 == s && p1[y][x] == cell);
        if row_dirty_spec(p1[y], s1[y], w) {
            assert(s2[y][x] == merge_cell_spec(cell, s[y][x]));
            assert(merge_cell_spec(cell, s[y][x]).character == cell.character);
        } else {
            // the pending row holds the written cell, so it is not blank;
            // the rows must be equal, and the committed cell already matches
            assert(p1[y][x] != empty_row_spec(w)[x]);
            assert(p1[y] != empty_row_spec(w));
            assert(s1[y] == p1[y]);
            assert(s2[y] == s1[y]);
        }
    }
    assert(s2[y].len() == w);
}

/// Law: a write whose position is outside both grids fails with
/// `OutOfBounds` and changes nothing.
pub proof fn lemma_write_rejects_out_of_range(
    p: Seq<Seq<BufCell>>,
    s: Seq<Seq<BufCell>>,
    x: int,
    y: int,
    cell: BufCell,
)
    requires
        !cell_in_bounds(p, x, y),
        !cell_in_bounds(s, x, y),
    ensures
        write_cell_spec(p, s, x, y, cell) == Err::<
            (Seq<Seq<BufCell>>, Seq<Seq<BufCell>>),
            BufError,
        >(BufError::OutOfBounds),
{
}

/// Law: resizing is idempotent — resizing twice to the same size leaves the
/// same grid as resizing once.
pub proof fn lemma_resize_idempotent(g: Seq<Seq<BufCell>>, size: Vec2)
    ensures
        resize_grid_spec(resize_grid_spec(g, size), size) == resize_grid_spec(g, size),
{
    let r1 = resize_grid_spec(g, size);
    let r2 = resize_grid_spec(r1, size);
    assert forall|y: int| 0 <= y < size.1 implies r2[y] == r1[y] by {
        assert(r1[y].len() == size.0 as nat);
        assert(r2[y] == resize_row_spec(r1[y], size.0 as nat));
        assert(resize_row_spec(r1[y], size.0 as nat) =~= r1[y]);
    }
    assert(r2 =~= r1);
}

/// Law: growing a well-formed grid and shrinking it back to its original
/// size restores the grid exactly.
pub proof fn lemma_grow_shrink_restores(g: Seq<Seq<BufCell>>, small: Vec2, big: Vec2)
    requires
        g.len() == small.1,
        forall|y: int| 0 <= y < g.len() ==> #[trigger] g[y].len() == small.0,
        small.0 <= big.0,
        small.1 <= big.1,
    ensures
        resize_grid_spec(resize_grid_spec(g, big), small) == g,
{
    let grown = resize_grid_spec(g, big);
    let back = resize_grid_spec(grown, small);
    assert forall|y: int| 0 <= y < small.1 implies back[y] == g[y] by {
        assert(grown[y] == resize_row_spec(g[y], big.0 as nat));
        assert(back[y] == resize_row_spec(grown[y], small.0 as nat));
        assert forall|x: int| 0 <= x < small.0 implies back[y][x] == g[y][x] by {
            assert(grown[y][x] == g[y][x]);
        }
        assert(back[y] =~= g[y]);
    }
    assert(back =~= g);
}

/// Law: absorbing a change log whose every entry equals the committed cell
/// at its position changes neither grid and reports no error.
pub proof fn lemma_absorb_matching_is_noop(
    p: Seq<Seq<BufCell>>,
    s: Seq<Seq<BufCell>>,
    changes: Seq<BufferChange>,
)
    requires
        forall|i: int|
            0 <= i < changes.len() ==> read_cell_spec(
                s,
                #[trigger] changes[i].loc.0 as int,
                changes[i].loc.1 as int,
            ) == Ok::<BufCell, BufError>(changes[i].cell),
    ensures
        absorb_spec(p, s, changes) == (p, s, None::<BufError>),
    decreases changes.len(),
{
    if changes.len() > 0 {
        assert(read_cell_spec(s, changes[0].loc.0 as int, changes[0].loc.1 as int) == Ok::<
            BufCell,
            BufError,
        >(changes[0].cell));
        assert(forall|i: int|
            0 <= i < changes.skip(1).len() ==> #[trigger] changes.skip(1)[i] == changes[i + 1]);
        lemma_absorb_matching_is_noop(p, s, changes.skip(1));
    }
}

/// Law: a commit whose pending grid is all blank emits no repaint and
/// leaves the committed grid untouched.
pub proof fn lemma_commit_blank_pending_quiet(p: Seq<Seq<BufCell>>, s: Seq<Seq<BufCell>>, w: nat)
    requires
        forall|y: int| 0 <= y < p.len() ==> #[trigger] p[y] == empty_row_spec(w),
    ensures
        commit_screen_spec(p, s, w) == s,
        commit_output_spec(p, s, w) == Seq::<(int, Seq<char>)>::empty(),
{
    assert forall|y: int| 0 <= y < s.len() implies commit_screen_spec(p, s, w)[y] == s[y] by {
        if y < p.len() {
            assert(!row_dirty_spec(p[y], s[y], w));
        }
    }
    assert(commit_screen_spec(p, s, w) =~= s);
    lemma_commit_output_upto_blank(p, s, w, p.len() as int);
}

proof fn lemma_commit_output_upto_blank(p: Seq<Seq<BufCell>>, s: Seq<Seq<BufCell>>, w: nat, n: int)
    requires
        forall|y: int| 0 <= y < p.len() ==> #[trigger] p[y] == empty_row_spec(w),
        n <= p.len(),
    ensures
        commit_output_upto(p, s, w, n) == Seq::<(int, Seq<char>)>::empty(),
    decreases n,
{
    if n > 0 {
        assert(!row_dirty_spec(p[n - 1], s[n - 1], w));
        lemma_commit_output_upto_blank(p, s, w, n - 1);
    }
}

/// Absorbing a change log never changes the shape of either grid: cell
/// writes only replace cells.
pub proof fn lemma_absorb_preserves_shape(
    p: Seq<Seq<BufCell>>,
    s: Seq<Seq<BufCell>>,
    changes: Seq<BufferChange>,
)
    ensures
        absorb_spec(p, s, changes).0.len() == p.len(),
        absorb_spec(p, s, changes).1.len() == s.len(),
        forall|y: int|
            0 <= y < p.len() ==> #[trigger] absorb_spec(p, s, changes).0[y].len() == p[y].len(),
        forall|y: int|
            0 <= y < s.len() ==> #[trigger] absorb_spec(p, s, changes).1[y].len() == s[y].len(),
    decreases changes.len(),
{
    if changes.len() > 0 {
        let ch = changes[0];
        match read_cell_spec(s, ch.loc.0 as int, ch.loc.1 as int) {
            Err(_) => {},
            Ok(cur) => {
                if cur == ch.cell {
                    lemma_absorb_preserves_shape(p, s, changes.skip(1));
                } else {
                    match write_cell_spec(p, s, ch.loc.0 as int, ch.loc.1 as int, ch.cell) {
                        Ok(ps) => {
                            lemma_absorb_preserves_shape(ps.0, ps.1, changes.skip(1));
                        },
                        Err(_) => {},
                    }
                }
            },
        }
    }
}

impl Clone for PseudoBuffer {
    /// A copy that holds the same window size and the same change log.
    fn clone(&self) -> (r: Self)
        ensures
            r@ == self@,
            r.spec_window_size() == self.spec_window_size(),
    {
        PseudoBuffer { window_size: self.window_size, changes: self.get_changes() }
    }
}

} // verus!
