//! Console buffer driver: a fixed rows-by-columns grid of character/color
//! cells with a current write column, plus write, scroll, backspace,
//! cursor-move and read-last-row operations.
//!
//! The grid is stored flat, row-major: the cell at row `r`, column `c` sits
//! at index `r * BUFFER_WIDTH + c`. The bottom row is the write target.

use vstd::prelude::*;
use vstd::string::StrSliceExecFns;

verus! {

/// The number of rows in the console grid.
pub const BUFFER_HEIGHT: usize = 25;

/// The number of columns in the console grid.
pub const BUFFER_WIDTH: usize = 80;

/// Total number of cells in the grid.
pub const GRID_CELLS: usize = BUFFER_HEIGHT * BUFFER_WIDTH;

/// Index of the first cell of the bottom row.
pub const LAST_ROW_START: usize = GRID_CELLS - BUFFER_WIDTH;

/// The standard color palette of the text-mode display.
#[allow(dead_code)]
#[derive(Debug, Clone, Copy, PartialEq, Eq, Structural)]
pub enum Color {
    Black,
    Blue,
    Green,
    Cyan,
    Red,
    Magenta,
    Brown,
    LightGray,
    DarkGray,
    LightBlue,
    LightGreen,
    LightCyan,
    LightRed,
    Pink,
    Yellow,
    White,
}

/// The numeric value of a palette entry.
pub open spec fn spec_color_value(c: Color) -> u8 {
    match c {
        Color::Black => 0,
        Color::Blue => 1,
        Color::Green => 2,
        Color::Cyan => 3,
        Color::Red => 4,
        Color::Magenta => 5,
        Color::Brown => 6,
        Color::LightGray => 7,
        Color::DarkGray => 8,
        Color::LightBlue => 9,
        Color::LightGreen => 10,
        Color::LightCyan => 11,
        Color::LightRed => 12,
        Color::Pink => 13,
        Color::Yellow => 14,
        Color::White => 15,
    }
}

impl Color {
    /// The numeric value of this palette entry.
    pub fn value(self) -> (r: u8)
        ensures
            r == spec_color_value(self),
            r < 16,
    {
        match self {
            Color::Black => 0,
            Color::Blue => 1,
            Color::Green => 2,
            Color::Cyan => 3,
            Color::Red => 4,
            Color::Magenta => 5,
            Color::Brown => 6,
            Color::LightGray => 7,
            Color::DarkGray => 8,
            Color::LightBlue => 9,
            Color::LightGreen => 10,
            Color::LightCyan => 11,
            Color::LightRed => 12,
            Color::Pink => 13,
            Color::Yellow => 14,
            Color::White => 15,
        }
    }
}

/// A combination of a foreground and a background color, packed as the
/// display expects it: background in the high nibble, foreground in the low.
#[derive(Debug, Clone, Copy, PartialEq, Eq, Structural)]
pub struct ColorCode(pub u8);

impl ColorCode {
    /// Pack a foreground and a background color.
    pub fn new(foreground: Color, background: Color) -> (r: ColorCode)
        ensures
            r.0 == (spec_color_value(background) << 4) | spec_color_value(foreground),
    {
        ColorCode((background.value() << 4) | foreground.value())
    }
}

/// One cell of the grid: a character code and its color pair.
#[derive(Debug, Clone, Copy, PartialEq, Eq, Structural)]
pub struct ScreenChar {
    pub ascii_character: u8,
    pub color_code: ColorCode,
}

/// The blank cell: an unwritten position reads back as character code 0.
pub open spec fn blank_cell(color: ColorCode) -> ScreenChar {
    ScreenChar { ascii_character: 0, color_code: color }
}

/// The mathematical state of the console: the flat grid, the current write
/// column, the number of scrolls performed so far, and the active color.
pub struct ConsoleState {
    pub grid: Seq<ScreenChar>,
    pub col: nat,
    pub scrolls: nat,
    pub color: ColorCode,
}

/// A well-formed console state: full grid, column within [0, width].
pub open spec fn wf_console(s: ConsoleState) -> bool {
    &&& s.grid.len() == GRID_CELLS
    &&& s.col <= BUFFER_WIDTH
}

/// The grid after one scroll: every row takes the contents of the row below
/// it, and the bottom row becomes blank.
pub open spec fn spec_scroll(g: Seq<ScreenChar>, color: ColorCode) -> Seq<ScreenChar> {
    Seq::new(GRID_CELLS as nat, |i: int| {
        if i < LAST_ROW_START {
            g[i + BUFFER_WIDTH]
        } else {
            blank_cell(color)
        }
    })
}

/// Map a character onto the byte that is written for it: newline passes
/// through, printable bytes pass through, anything else becomes 0xfe.
pub open spec fn sanitize_char(c: char) -> u8 {
    if c == '\n' {
        10
    } else if ' ' <= c && c <= '~' {
        c as u8
    } else {
        0xfe
    }
}

/// One write step. A newline scrolls and resets the column; a full row
/// scrolls before the write lands at column 0; otherwise the byte lands at
/// the current column of the bottom row and the column advances.
pub open spec fn spec_write_byte(s: ConsoleState, b: u8) -> ConsoleState {
    if b == 10 {
        ConsoleState { grid: spec_scroll(s.grid, s.color), col: 0, scrolls: s.scrolls + 1, ..s }
    } else if s.col < BUFFER_WIDTH {
        ConsoleState {
            grid: s.grid.update(
                LAST_ROW_START + s.col as int,
                ScreenChar { ascii_character: b, color_code: s.color },
            ),
            col: s.col + 1,
            ..s
        }
    } else {
        ConsoleState {
            grid: spec_scroll(s.grid, s.color).update(
                LAST_ROW_START as int,
                ScreenChar { ascii_character: b, color_code: s.color },
            ),
            col: 1,
            scrolls: s.scrolls + 1,
            ..s
        }
    }
}

/// Writing a character sequence: each character is sanitized and written in
/// turn.
pub open spec fn spec_write_chars(s: ConsoleState, cs: Seq<char>) -> ConsoleState
    decreases cs.len(),
{
    if cs.len() == 0 {
        s
    } else {
        spec_write_chars(spec_write_byte(s, sanitize_char(cs[0])), cs.drop_first())
    }
}

/// Backspace erases the character before the cursor and steps back one
/// column, clamped at 0; delete erases at the cursor without moving it,
/// clamped at the last column.
pub open spec fn spec_backspace(s: ConsoleState, backwards: bool) -> ConsoleState {
    if backwards {
        if s.col > 0 {
            ConsoleState {
                grid: s.grid.update(
                    LAST_ROW_START + (s.col - 1),
                    ScreenChar { ascii_character: 32, color_code: s.color },
                ),
                col: (s.col - 1) as nat,
                ..s
            }
        } else {
            s
        }
    } else {
        let c = if s.col < BUFFER_WIDTH { s.col as int } else { BUFFER_WIDTH - 1 };
        ConsoleState {
            grid: s.grid.update(
                LAST_ROW_START + c,
                ScreenChar { ascii_character: 32, color_code: s.color },
            ),
            ..s
        }
    }
}

/// Cursor one column to the left, clamped at 0.
pub open spec fn spec_cursor_left(s: ConsoleState) -> ConsoleState {
    if s.col > 0 {
        ConsoleState { col: (s.col - 1) as nat, ..s }
    } else {
        s
    }
}

/// Cursor one column to the right, staying within the row: a no-op at the
/// last column and beyond.
pub open spec fn spec_cursor_right(s: ConsoleState) -> ConsoleState {
    if s.col < BUFFER_WIDTH - 1 {
        ConsoleState { col: s.col + 1, ..s }
    } else {
        s
    }
}

/// The console service object: owns the grid, the write column and the
/// active color. A ghost counter records how many scrolls have happened.
pub struct Writer {
    pub column_position: usize,
    pub color_code: ColorCode,
    pub buffer: Vec<ScreenChar>,
    pub scrolls: Ghost<nat>,
}

impl View for Writer {
    type V = ConsoleState;

    open spec fn view(&self) -> ConsoleState {
        ConsoleState {
            grid: self.buffer@,
            col: self.column_position as nat,
            scrolls: self.scrolls@,
            color: self.color_code,
        }
    }
}

impl Writer {
    /// A fresh console: blank grid, column 0, no scrolls yet.
    pub fn new(color_code: ColorCode) -> (w: Writer)
        ensures
            wf_console(w@),
            w@.col == 0,
            w@.scrolls == 0,
            w@.color == color_code,
            w@.grid == Seq::new(GRID_CELLS as nat, |i: int| blank_cell(color_code)),
    {
        let mut buffer: Vec<ScreenChar> = Vec::new();
        let mut i: usize = 0;
        while i < GRID_CELLS
            invariant
                i <= GRID_CELLS,
                buffer@.len() == i,
                forall|j: int| 0 <= j < i ==> buffer@[j] == blank_cell(color_code),
            decreases GRID_CELLS - i,
        {
            buffer.push(ScreenChar { ascii_character: 0, color_code });
            i += 1;
        }
        proof {
            assert(buffer@ =~= Seq::new(GRID_CELLS as nat, |i: int| blank_cell(color_code)));
        }
        Writer { column_position: 0, color_code, buffer, scrolls: Ghost(0) }
    }

    /// Blank one row of the grid.
    fn clear_row(&mut self, row: usize)
        requires
            wf_console(old(self)@),
            row < BUFFER_HEIGHT,
        ensures
            final(self)@.grid == Seq::new(
                GRID_CELLS as nat,
                |i: int| {
                    if row * BUFFER_WIDTH <= i < (row + 1) * BUFFER_WIDTH {
                        blank_cell(old(self)@.color)
                    } else {
                        old(self)@.grid[i]
                    }
                },
            ),
            final(self)@.col == old(self)@.col,
            final(self)@.scrolls == old(self)@.scrolls,
            final(self)@.color == old(self)@.color,
    {
        let base = row * BUFFER_WIDTH;
        let mut col: usize = 0;
        while col < BUFFER_WIDTH
            invariant
                col <= BUFFER_WIDTH,
                base == row * BUFFER_WIDTH,
                row < BUFFER_HEIGHT,
                self.buffer@.len() == GRID_CELLS,
                self.column_position == old(self).column_position,
                self.color_code == old(self).color_code,
                self.scrolls == old(self).scrolls,
                forall|i: int|
                    0 <= i < GRID_CELLS && !(base <= i < base + col) ==> self.buffer@[i]
                        == old(self)@.grid[i],
                forall|i: int|
                    base <= i < base + col ==> self.buffer@[i] == blank_cell(old(self)@.color),
            decreases BUFFER_WIDTH - col,
        {
            self.buffer[base + col] = ScreenChar { ascii_character: 0, color_code: self.color_code };
            col += 1;
        }
        proof {
            assert(self.buffer@ =~= Seq::new(
                GRID_CELLS as nat,
                |i: int| {
                    if row * BUFFER_WIDTH <= i < (row + 1) * BUFFER_WIDTH {
                        blank_cell(old(self)@.color)
                    } else {
                        old(self)@.grid[i]
                    }
                },
            ));
        }
    }

    /// Scroll: shift every row one row up, blank the new bottom row, and
    /// reset the column to 0.
    fn new_line(&mut self)
        requires
            wf_console(old(self)@),
        ensures
            final(self)@.grid == spec_scroll(old(self)@.grid, old(self)@.color),
            final(self)@.col == 0,
            final(self)@.scrolls == old(self)@.scrolls + 1,
            final(self)@.color == old(self)@.color,
            wf_console(final(self)@),
    {
        let mut i: usize = 0;
        while i < LAST_ROW_START
            invariant
                i <= LAST_ROW_START,
                self.buffer@.len() == GRID_CELLS,
                self.column_position == old(self).column_position,
                self.color_code == old(self).color_code,
                self.scrolls == old(self).scrolls,
                forall|j: int| 0 <= j < i ==> self.buffer@[j] == old(self)@.grid[j + BUFFER_WIDTH],
                forall|j: int| i <= j < GRID_CELLS ==> self.buffer@[j] == old(self)@.grid[j],
            decreases LAST_ROW_START - i,
        {
            let moved = self.buffer[i + BUFFER_WIDTH];
            self.buffer[i] = moved;
            i += 1;
        }
        self.clear_row(BUFFER_HEIGHT - 1);
        self.column_position = 0;
        self.scrolls = Ghost(self.scrolls@ + 1);
        proof {
            assert(self.buffer@ =~= spec_scroll(old(self)@.grid, old(self)@.color));
        }
    }

    /// Write one byte at the bottom row's current column with the active
    /// color, advancing the column; a newline, or an already-full row,
    /// scrolls first.
    pub fn write_byte(&mut self, byte: u8)
        requires
            wf_console(old(self)@),
        ensures
            final(self)@ == spec_write_byte(old(self)@, byte),
            wf_console(final(self)@),
    {
        if byte == 10u8 {
            self.new_line();
        } else {
            if self.column_position >= BUFFER_WIDTH {
                self.new_line();
            }
            let col = self.column_position;
            let color_code = self.color_code;
            self.buffer[LAST_ROW_START + col] = ScreenChar {
                ascii_character: byte,
                color_code,
            };
            self.column_position = col + 1;
        }
    }

    /// Write one character, sanitized: printable and newline pass through,
    /// anything else is written as 0xfe.
    pub fn write_char(&mut self, c: char)
        requires
            wf_console(old(self)@),
        ensures
            final(self)@ == spec_write_byte(old(self)@, sanitize_char(c)),
            wf_console(final(self)@),
    {
        if c == '\n' {
            self.write_byte(10);
        } else if ' ' <= c && c <= '~' {
            self.write_byte(c as u8);
        } else {
            self.write_byte(0xfe);
        }
    }

    /// Write a character sequence in order.
    pub fn write_string(&mut self, s: &str)
        requires
            wf_console(old(self)@),
        ensures
            final(self)@ == spec_write_chars(old(self)@, s@),
            wf_console(final(self)@),
    {
        let n = s.unicode_len();
        proof {
            assert(s@.subrange(0, n as int) =~= s@);
        }
        let mut i: usize = 0;
        while i < n
            invariant
                i <= n,
                n == s@.len(),
                wf_console(self@),
                spec_write_chars(old(self)@, s@) == spec_write_chars(
                    self@,
                    s@.subrange(i as int, n as int),
                ),
            decreases n - i,
        {
            let ghost pre = self@;
            let c = s.get_char(i);
            self.write_char(c);
            proof {
                let rest = s@.subrange(i as int, n as int);
                assert(rest[0] == s@[i as int]);
                assert(rest.drop_first() =~= s@.subrange(i + 1, n as int));
            }
            i += 1;
        }
        proof {
            assert(s@.subrange(n as int, n as int) =~= Seq::<char>::empty());
        }
    }

    /// Write a character vector in order.
    pub fn write_chars(&mut self, cs: &Vec<char>)
        requires
            wf_console(old(self)@),
        ensures
            final(self)@ == spec_write_chars(old(self)@, cs@),
            wf_console(final(self)@),
    {
        let n = cs.len();
        proof {
            assert(cs@.subrange(0, n as int) =~= cs@);
        }
        let mut i: usize = 0;
        while i < n
            invariant
                i <= n,
                n == cs@.len(),
                wf_console(self@),
                spec_write_chars(old(self)@, cs@) == spec_write_chars(
                    self@,
                    cs@.subrange(i as int, n as int),
                ),
            decreases n - i,
        {
            self.write_char(cs[i]);
            proof {
                let rest = cs@.subrange(i as int, n as int);
                assert(rest[0] == cs@[i as int]);
                assert(rest.drop_first() =~= cs@.subrange(i + 1, n as int));
            }
            i += 1;
        }
        proof {
            assert(cs@.subrange(n as int, n as int) =~= Seq::<char>::empty());
        }
    }

    /// Copy the bottom row's character codes into a caller-supplied
    /// fixed-width buffer; every cell of the row is copied, and unwritten
    /// cells read back as NUL.
    pub fn get_prev_line(&self, line: &mut [char; 80])
        requires
            wf_console(self@),
        ensures
            forall|i: int|
                0 <= i < BUFFER_WIDTH ==> final(line)@[i] == (
                self@.grid[LAST_ROW_START + i].ascii_character as char),
    {
        let mut col: usize = 0;
        while col < BUFFER_WIDTH
            invariant
                col <= BUFFER_WIDTH,
                wf_console(self@),
                forall|i: int|
                    0 <= i < col ==> line@[i] == (
                    self@.grid[LAST_ROW_START + i].ascii_character as char),
            decreases BUFFER_WIDTH - col,
        {
            line[col] = self.buffer[LAST_ROW_START + col].ascii_character as char;
            col += 1;
        }
    }

    /// Erase one character: backwards erases before the cursor and moves it
    /// back one column, clamped at 0; otherwise the character at the cursor
    /// is erased without moving it, clamped at the last column.
    pub fn _backspace(&mut self, backwards: bool)
        requires
            wf_console(old(self)@),
        ensures
            final(self)@ == spec_backspace(old(self)@, backwards),
            wf_console(final(self)@),
    {
        if backwards {
            if self.column_position > 0 {
                let col = self.column_position - 1;
                let color_code = self.color_code;
                self.buffer[LAST_ROW_START + col] = ScreenChar {
                    ascii_character: 32u8,
                    color_code,
                };
                self.column_position = col;
            }
        } else {
            let col = if self.column_position < BUFFER_WIDTH {
                self.column_position
            } else {
                BUFFER_WIDTH - 1
            };
            let color_code = self.color_code;
            self.buffer[LAST_ROW_START + col] = ScreenChar { ascii_character: 32u8, color_code };
        }
    }

    /// Move the cursor one column left, clamped at 0.
    pub fn _cursor_left(&mut self)
        requires
            wf_console(old(self)@),
        ensures
            final(self)@ == spec_cursor_left(old(self)@),
            wf_console(final(self)@),
    {
        if self.column_position > 0 {
            self.column_position = self.column_position - 1;
        }
    }

    /// Move the cursor one column right, staying within the row: at the
    /// last column this is a no-op.
    pub fn _cursor_right(&mut self)
        requires
            wf_console(old(self)@),
        ensures
            final(self)@ == spec_cursor_right(old(self)@),
            wf_console(final(self)@),
    {
        if self.column_position < BUFFER_WIDTH - 1 {
            self.column_position = self.column_position + 1;
        }
    }
}

/// A character that is written verbatim: printable, not a newline.
pub open spec fn is_printable(c: char) -> bool {
    ' ' <= c && c <= '~'
}

/// Writing a printable sequence that fits in the remainder of the bottom
/// row fills exactly those cells, advances the column by the sequence's
/// length, scrolls nothing and touches nothing else.
pub proof fn lemma_fill_row(s: ConsoleState, cs: Seq<char>)
    requires
        wf_console(s),
        s.col + cs.len() <= BUFFER_WIDTH,
        forall|i: int| 0 <= i < cs.len() ==> is_printable(#[trigger] cs[i]),
    ensures
        spec_write_chars(s, cs).col == s.col + cs.len(),
        spec_write_chars(s, cs).scrolls == s.scrolls,
        spec_write_chars(s, cs).color == s.color,
        spec_write_chars(s, cs).grid.len() == GRID_CELLS,
        forall|i: int|
            0 <= i < GRID_CELLS && !(LAST_ROW_START + s.col <= i < LAST_ROW_START + s.col
                + cs.len()) ==> spec_write_chars(s, cs).grid[i] == s.grid[i],
        forall|k: int|
            0 <= k < cs.len() ==> spec_write_chars(s, cs).grid[LAST_ROW_START + s.col + k]
                == (ScreenChar { ascii_character: cs[k] as u8, color_code: s.color }),
    decreases cs.len(),
{
    if cs.len() > 0 {
        let c = cs[0];
        assert(is_printable(c));
        assert(sanitize_char(c) == c as u8);
        assert(c as u8 != 10) by {
            assert(' ' <= c);
        }
        let s1 = spec_write_byte(s, sanitize_char(c));
        let rest = cs.drop_first();
        lemma_fill_row(s1, rest);
        let t = spec_write_chars(s, cs);
        assert(t == spec_write_chars(s1, rest));
        assert forall|i: int|
            0 <= i < GRID_CELLS && !(LAST_ROW_START + s.col <= i < LAST_ROW_START + s.col
                + cs.len()) implies t.grid[i] == s.grid[i] by {
            assert(t.grid[i] == s1.grid[i]);
        }
        assert forall|k: int| 0 <= k < cs.len() implies t.grid[LAST_ROW_START + s.col + k] == (
        ScreenChar { ascii_character: cs[k] as u8, color_code: s.color }) by {
            if k == 0 {
                assert(s1.grid[LAST_ROW_START + s.col] == (ScreenChar {
                    ascii_character: c as u8,
                    color_code: s.color,
                }));
                assert(t.grid[LAST_ROW_START + s.col] == s1.grid[LAST_ROW_START + s.col]);
            } else {
                assert(rest[k - 1] == cs[k]);
                assert(t.grid[LAST_ROW_START + s1.col + (k - 1)] == (ScreenChar {
                    ascii_character: rest[k - 1] as u8,
                    color_code: s1.color,
                }));
            }
        }
    }
}

/// Writing exactly one full row of printable characters from column 0
/// scrolls nothing and leaves the column at the width; the next printable
/// character then triggers exactly one scroll and appears at column 0 of a
/// fresh bottom row whose other cells are blank.
pub proof fn lemma_full_row_single_scroll(s: ConsoleState, cs: Seq<char>, c: char)
    requires
        wf_console(s),
        s.col == 0,
        cs.len() == BUFFER_WIDTH,
        forall|i: int| 0 <= i < cs.len() ==> is_printable(#[trigger] cs[i]),
        is_printable(c),
    ensures
        spec_write_chars(s, cs).col == BUFFER_WIDTH,
        spec_write_chars(s, cs).scrolls == s.scrolls,
        spec_write_byte(spec_write_chars(s, cs), sanitize_char(c)).scrolls == s.scrolls + 1,
        spec_write_byte(spec_write_chars(s, cs), sanitize_char(c)).col == 1,
        spec_write_byte(spec_write_chars(s, cs), sanitize_char(c)).grid[LAST_ROW_START as int]
            == (ScreenChar { ascii_character: c as u8, color_code: s.color }),
        forall|k: int|
            1 <= k < BUFFER_WIDTH ==> spec_write_byte(
                spec_write_chars(s, cs),
                sanitize_char(c),
            ).grid[#[trigger] (LAST_ROW_START + k)] == blank_cell(s.color),
    decreases cs.len(),
{
    lemma_fill_row(s, cs);
    let t = spec_write_chars(s, cs);
    assert(sanitize_char(c) == c as u8);
    assert(c as u8 != 10) by {
        assert(' ' <= c);
    }
}

/// Writing a printable sequence of at most one row's length onto a fresh
/// bottom row, from column 0, leaves the bottom row holding exactly that
/// sequence followed by NUL padding: reading the last row back yields the
/// sequence and then NULs.
pub proof fn lemma_write_read_back(s: ConsoleState, cs: Seq<char>)
    requires
        wf_console(s),
        s.col == 0,
        cs.len() <= BUFFER_WIDTH,
        forall|i: int| 0 <= i < cs.len() ==> is_printable(#[trigger] cs[i]),
        forall|k: int|
            0 <= k < BUFFER_WIDTH ==> s.grid[#[trigger] (LAST_ROW_START + k)] == blank_cell(
                s.color,
            ),
    ensures
        forall|k: int|
            0 <= k < cs.len() ==> (spec_write_chars(s, cs).grid[#[trigger] (LAST_ROW_START
                + k)].ascii_character as char) == cs[k],
        forall|k: int|
            cs.len() <= k < BUFFER_WIDTH ==> spec_write_chars(s, cs).grid[#[trigger] (
            LAST_ROW_START + k)].ascii_character == 0,
{
    lemma_fill_row(s, cs);
}

/// Backspace at column 0 is a no-op.
pub proof fn lemma_backspace_at_zero_noop(s: ConsoleState)
    requires
        wf_console(s),
        s.col == 0,
    ensures
        spec_backspace(s, true) == s,
{
}

/// Cursor-right at the last column is a no-op.
pub proof fn lemma_cursor_right_at_edge_noop(s: ConsoleState)
    requires
        wf_console(s),
        s.col >= BUFFER_WIDTH - 1,
    ensures
        spec_cursor_right(s) == s,
{
}

/// Every console operation keeps the column within bounds: it never
/// underflows below 0 nor exceeds the width.
pub proof fn lemma_column_in_bounds(s: ConsoleState, b: u8, backwards: bool)
    requires
        wf_console(s),
    ensures
        wf_console(spec_write_byte(s, b)),
        wf_console(spec_backspace(s, backwards)),
        wf_console(spec_cursor_left(s)),
        wf_console(spec_cursor_right(s)),
{
}

/// Erase one character on the given console; see [`Writer::_backspace`].
pub fn backspace(w: &mut Writer, backwards: bool)
    requires
        wf_console(old(w)@),
    ensures
        final(w)@ == spec_backspace(old(w)@, backwards),
        wf_console(final(w)@),
{
    w._backspace(backwards);
}

/// Move the cursor one column left on the given console, clamped at 0.
pub fn cursor_left(w: &mut Writer)
    requires
        wf_console(old(w)@),
    ensures
        final(w)@ == spec_cursor_left(old(w)@),
        wf_console(final(w)@),
{
    w._cursor_left();
}

/// Move the cursor one column right on the given console, staying within
/// the row.
pub fn cursor_right(w: &mut Writer)
    requires
        wf_console(old(w)@),
    ensures
        final(w)@ == spec_cursor_right(old(w)@),
        wf_console(final(w)@),
{
    w._cursor_right();
}

} // verus!
