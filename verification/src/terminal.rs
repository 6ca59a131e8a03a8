//! The terminal driver: an 80 by 25 grid of packed character cells, the
//! cursor, the current color attribute, line-wrap and scroll logic, a
//! bounded line-edit buffer, and the arithmetic behind the hardware cursor
//! registers. The grid here is the model the caller mirrors into display
//! memory; each cell packs a color attribute in the high byte and a font
//! glyph in the low byte.

use vstd::prelude::*;
use vstd::pervasive::VecAdditionalExecFns;
use vstd::string::StrSliceExecFns;

use crate::glyphs;
use crate::keyboard;
use crate::keyboard::Qwerty;

verus! {

/// Columns of the character grid.
pub const GRID_WIDTH: usize = 80;

/// Rows of the character grid.
pub const GRID_HEIGHT: usize = 25;

/// Cells of the character grid.
pub const GRID_CELLS: usize = 2000;

/// Tab stops sit at every fourth column.
pub const TAB_SIZE: usize = 4;

/// Capacity of the line-edit buffer, in bytes.
pub const CMDLINE_CAPACITY: usize = 128;

/// The color attribute the terminal starts with: white on black.
pub const DEFAULT_COLOR: u8 = 0x0F;

/// The mathematical view of the display: the packed cells in row-major
/// order, the cursor position, and the current color attribute.
#[verifier::ext_equal]
pub struct Screen {
    /// The packed cells, row-major.
    pub grid: Seq<u16>,
    /// Cursor column.
    pub x: int,
    /// Cursor row.
    pub y: int,
    /// Current color attribute.
    pub color: u8,
}

/// One packed cell: the color attribute in the high byte, the glyph in the
/// low byte.
pub open spec fn cell_value(color: u8, glyph: u8) -> u16 {
    ((color as u16) << 8) | (glyph as u16)
}

/// A well-formed display: full grid, cursor inside it.
pub open spec fn screen_wf(s: Screen) -> bool {
    &&& s.grid.len() == GRID_CELLS
    &&& 0 <= s.x < GRID_WIDTH
    &&& 0 <= s.y < GRID_HEIGHT
}

/// What `newline` needs of the display: full grid, cursor row inside it.
/// The cursor column may sit just past the right edge, where a wrapping
/// write leaves it for the newline that follows.
pub open spec fn screen_rows_ok(s: Screen) -> bool {
    &&& s.grid.len() == GRID_CELLS
    &&& 0 <= s.y < GRID_HEIGHT
}

/// The grid after one scroll: every row moves up by one, and the bottom row
/// is blank-filled (glyph zero) at the given color.
pub open spec fn scrolled(grid: Seq<u16>, color: u8) -> Seq<u16> {
    Seq::new(
        GRID_CELLS as nat,
        |i: int|
            if i < GRID_CELLS - GRID_WIDTH {
                grid[i + GRID_WIDTH]
            } else {
                cell_value(color, 0)
            },
    )
}

/// The display after a newline: cursor to the start of the next row; from
/// the bottom row, the grid scrolls instead and the cursor row stays put.
pub open spec fn after_newline(s: Screen) -> Screen {
    if s.y + 1 == GRID_HEIGHT {
        Screen { grid: scrolled(s.grid, s.color), x: 0, y: s.y, color: s.color }
    } else {
        Screen { x: 0, y: s.y + 1, ..s }
    }
}

/// The next tab stop: the smallest multiple of the tab size strictly after
/// the given column.
pub open spec fn tab_stop(x: int) -> int {
    let v = x + 1;
    if v % (TAB_SIZE as int) == 0 {
        v
    } else {
        v + (TAB_SIZE - v % (TAB_SIZE as int))
    }
}

/// The display with one cell replaced, at the current color.
pub open spec fn with_cell(s: Screen, x: int, y: int, glyph: u8) -> Screen {
    Screen { grid: s.grid.update(y * GRID_WIDTH + x, cell_value(s.color, glyph)), ..s }
}

/// The display after printing one character: newline, carriage return and
/// tab move the cursor; every other character resolves to a glyph (with the
/// replacement glyph standing in for unmapped ones), lands at the cursor,
/// and advances it, wrapping into a newline at the right edge.
pub open spec fn after_putchar(s: Screen, c: char) -> Screen {
    if c == '\n' {
        after_newline(s)
    } else if c == '\r' {
        Screen { x: 0, ..s }
    } else if c == '\t' {
        let nx = tab_stop(s.x);
        if nx >= GRID_WIDTH {
            after_newline(Screen { x: nx, ..s })
        } else {
            Screen { x: nx, ..s }
        }
    } else {
        let s2 = Screen { x: s.x + 1, ..with_cell(s, s.x, s.y, glyphs::glyph_or_replacement(c)) };
        if s2.x >= GRID_WIDTH {
            after_newline(s2)
        } else {
            s2
        }
    }
}

/// The terminal: grid, cursor, color, scancode decoder and line-edit buffer.
pub struct VgaBuffer {
    grid: Vec<u16>,
    cursor_x: usize,
    cursor_y: usize,
    current_color: u8,
    keyboard: Qwerty,
    cmdline: Vec<u8>,
}

impl VgaBuffer {
    /// The display this terminal models.
    pub closed spec fn screen(&self) -> Screen {
        Screen {
            grid: self.grid@,
            x: self.cursor_x as int,
            y: self.cursor_y as int,
            color: self.current_color,
        }
    }

    /// The in-progress command line.
    pub closed spec fn line(&self) -> Seq<u8> {
        self.cmdline@
    }

    /// The scancode decoder's state.
    pub closed spec fn decoder(&self) -> Qwerty {
        self.keyboard
    }

    /// A well-formed terminal: well-formed display, line buffer within its
    /// capacity.
    pub open spec fn wf(&self) -> bool {
        &&& screen_wf(self.screen())
        &&& self.line().len() <= CMDLINE_CAPACITY
    }

    /// Returns a terminal with the cursor at the origin, the default color,
    /// a blank grid, a fresh decoder and an empty line buffer.
    pub fn new() -> (t: VgaBuffer)
        ensures
            t.wf(),
            t.screen().x == 0,
            t.screen().y == 0,
            t.screen().color == DEFAULT_COLOR,
            forall|i: int|
                0 <= i < GRID_CELLS ==> t.screen().grid[i] == cell_value(DEFAULT_COLOR, 0x20),
            t.line() == Seq::<u8>::empty(),
            t.decoder().state == keyboard::State::Neutral,
            t.decoder().modifiers == keyboard::no_modifiers(),
    {
        let mut grid: Vec<u16> = Vec::new();
        let mut i: usize = 0;
        while i < GRID_CELLS
            invariant
                i <= GRID_CELLS,
                grid@.len() == i,
                forall|j: int| 0 <= j < i ==> grid@[j] == cell_value(DEFAULT_COLOR, 0x20),
            decreases GRID_CELLS - i,
        {
            grid.push(((DEFAULT_COLOR as u16) << 8) | (0x20 as u16));
            i += 1;
        }
        VgaBuffer {
            grid,
            cursor_x: 0,
            cursor_y: 0,
            current_color: DEFAULT_COLOR,
            keyboard: Qwerty::new(),
            cmdline: Vec::new(),
        }
    }

    /// Returns the cursor column.
    pub fn cursor_x(&self) -> (r: usize)
        ensures
            r == self.screen().x,
    {
        self.cursor_x
    }

    /// Returns the cursor row.
    pub fn cursor_y(&self) -> (r: usize)
        ensures
            r == self.screen().y,
    {
        self.cursor_y
    }

    /// Returns the current color attribute.
    pub fn current_color(&self) -> (r: u8)
        ensures
            r == self.screen().color,
    {
        self.current_color
    }

    /// Returns the length of the in-progress command line.
    pub fn line_len(&self) -> (r: usize)
        ensures
            r == self.line().len(),
    {
        self.cmdline.len()
    }

    /// Returns the packed cell at the given coordinates.
    pub fn cell_at(&self, x: usize, y: usize) -> (r: u16)
        requires
            self.wf(),
            x < GRID_WIDTH,
            y < GRID_HEIGHT,
        ensures
            r == self.screen().grid[y * GRID_WIDTH + x],
    {
        self.grid[x + y * GRID_WIDTH]
    }

    /// Sets the color attribute used by every following write.
    pub fn set_color(&mut self, color: u8)
        requires
            old(self).wf(),
        ensures
            final(self).wf(),
            final(self).screen() == (Screen { color, ..old(self).screen() }),
            final(self).line() == old(self).line(),
            final(self).decoder() == old(self).decoder(),
    {
        self.current_color = color;
    }

    /// Fills the whole grid with blank cells (a space glyph) at the current
    /// color. The cursor does not move.
    pub fn clear(&mut self)
        requires
            old(self).wf(),
        ensures
            final(self).wf(),
            final(self).screen().x == old(self).screen().x,
            final(self).screen().y == old(self).screen().y,
            final(self).screen().color == old(self).screen().color,
            forall|i: int|
                0 <= i < GRID_CELLS ==> final(self).screen().grid[i] == cell_value(
                    old(self).screen().color,
                    0x20,
                ),
            final(self).line() == old(self).line(),
            final(self).decoder() == old(self).decoder(),
    {
        let ghost t0 = *old(self);
        let color = self.current_color;
        let value = ((color as u16) << 8) | (0x20 as u16);
        let mut i: usize = 0;
        while i < GRID_CELLS
            invariant
                i <= GRID_CELLS,
                self.grid@.len() == GRID_CELLS,
                self.cursor_x == t0.cursor_x,
                self.cursor_y == t0.cursor_y,
                self.current_color == t0.current_color,
                self.keyboard == t0.keyboard,
                self.cmdline@ == t0.cmdline@,
                t0.wf(),
                value == cell_value(t0.current_color, 0x20),
                forall|j: int| 0 <= j < i ==> self.grid@[j] == cell_value(t0.current_color, 0x20),
            decreases GRID_CELLS - i,
        {
            self.grid.set(i, value);
            i += 1;
        }
    }

    /// Writes one byte at the given coordinates with the given color,
    /// packing the two into the cell there. The coordinates must lie inside
    /// the grid: an out-of-range write is a driver bug, and the caller
    /// aborts rather than reaching this.
    pub fn write_byte(&mut self, x: usize, y: usize, byte: u8, color: u8)
        requires
            old(self).wf(),
            x < GRID_WIDTH,
            y < GRID_HEIGHT,
        ensures
            final(self).wf(),
            final(self).screen().grid == old(self).screen().grid.update(
                y * GRID_WIDTH + x,
                cell_value(color, byte),
            ),
            final(self).screen().x == old(self).screen().x,
            final(self).screen().y == old(self).screen().y,
            final(self).screen().color == old(self).screen().color,
            final(self).line() == old(self).line(),
            final(self).decoder() == old(self).decoder(),
    {
        let value = ((color as u16) << 8) | (byte as u16);
        self.grid.set(x + y * GRID_WIDTH, value);
    }

    /// Writes one byte at the given coordinates using the current color.
    pub fn write_at(&mut self, x: usize, y: usize, byte: u8)
        requires
            old(self).wf(),
            x < GRID_WIDTH,
            y < GRID_HEIGHT,
        ensures
            final(self).wf(),
            final(self).screen() == with_cell(old(self).screen(), x as int, y as int, byte),
            final(self).line() == old(self).line(),
            final(self).decoder() == old(self).decoder(),
    {
        let color = self.current_color;
        self.write_byte(x, y, byte, color);
        proof {
            assert(final(self).screen() =~= with_cell(old(self).screen(), x as int, y as int, byte));
        }
    }

    /// Moves the cursor to the start of the next row; from the bottom row,
    /// scrolls every row up by one, blank-fills the new bottom row at the
    /// current color, and keeps the cursor on the bottom row.
    pub fn newline(&mut self)
        requires
            screen_rows_ok(old(self).screen()),
            old(self).line().len() <= CMDLINE_CAPACITY,
        ensures
            final(self).wf(),
            final(self).screen() == after_newline(old(self).screen()),
            final(self).line() == old(self).line(),
            final(self).decoder() == old(self).decoder(),
    {
        let ghost t0 = *old(self);
        self.cursor_x = 0;
        if self.cursor_y + 1 == GRID_HEIGHT {
            let color = self.current_color;
            let blank = ((color as u16) << 8) | (0x00 as u16);
            let mut i: usize = 0;
            while i < GRID_CELLS - GRID_WIDTH
                invariant
                    i <= GRID_CELLS - GRID_WIDTH,
                    self.grid@.len() == GRID_CELLS,
                    self.cursor_x == 0,
                    self.cursor_y == t0.cursor_y,
                    self.current_color == t0.current_color,
                    self.keyboard == t0.keyboard,
                    self.cmdline@ == t0.cmdline@,
                    forall|j: int| 0 <= j < i ==> self.grid@[j] == t0.grid@[j + GRID_WIDTH],
                    forall|j: int| i <= j < GRID_CELLS ==> self.grid@[j] == t0.grid@[j],
                decreases GRID_CELLS - GRID_WIDTH - i,
            {
                let v = self.grid[i + GRID_WIDTH];
                self.grid.set(i, v);
                i += 1;
            }
            let mut i: usize = GRID_CELLS - GRID_WIDTH;
            while i < GRID_CELLS
                invariant
                    GRID_CELLS - GRID_WIDTH <= i <= GRID_CELLS,
                    self.grid@.len() == GRID_CELLS,
                    self.cursor_x == 0,
                    self.cursor_y == t0.cursor_y,
                    self.current_color == t0.current_color,
                    self.keyboard == t0.keyboard,
                    self.cmdline@ == t0.cmdline@,
                    blank == cell_value(t0.current_color, 0),
                    forall|j: int|
                        0 <= j < GRID_CELLS - GRID_WIDTH ==> self.grid@[j] == t0.grid@[j
                            + GRID_WIDTH],
                    forall|j: int|
                        GRID_CELLS - GRID_WIDTH <= j < i ==> self.grid@[j] == cell_value(
                            t0.current_color,
                            0,
                        ),
                decreases GRID_CELLS - i,
            {
                self.grid.set(i, blank);
                i += 1;
            }
            proof {
                assert(self.grid@ =~= scrolled(t0.grid@, t0.current_color));
                assert(final(self).screen() =~= after_newline(t0.screen()));
            }
        } else {
            self.cursor_y = self.cursor_y + 1;
        }
    }

    /// Prints one character at the cursor: newline, carriage return and tab
    /// move the cursor; any other character resolves to a glyph — with the
    /// replacement glyph standing in for unmapped ones — lands at the
    /// cursor at the current color, and advances it, wrapping into a
    /// newline at the right edge.
    #[verifier::rlimit(100)]
    pub fn putchar(&mut self, c: char)
        requires
            old(self).wf(),
        ensures
            final(self).wf(),
            final(self).screen() == after_putchar(old(self).screen(), c),
            final(self).line() == old(self).line(),
            final(self).decoder() == old(self).decoder(),
    {
        if c == '\n' {
            self.newline();
        } else if c == '\r' {
            self.cursor_x = 0;
        } else if c == '\t' {
            let nx = self.cursor_x + 1;
            let r = nx % TAB_SIZE;
            let nx = if r == 0 {
                nx
            } else {
                nx + (TAB_SIZE - r)
            };
            self.cursor_x = nx;
            if self.cursor_x >= GRID_WIDTH {
                self.newline();
            }
        } else {
            let b = glyphs::resolve_glyph(c);
            let x = self.cursor_x;
            let y = self.cursor_y;
            self.write_at(x, y, b);
            self.cursor_x = x + 1;
            if self.cursor_x >= GRID_WIDTH {
                self.newline();
            }
        }
    }

    /// Records the cursor position that the caller pushes into the hardware
    /// cursor registers.
    pub fn set_visual_cursor_pos(&mut self, x: usize, y: usize)
        requires
            old(self).wf(),
            x < GRID_WIDTH,
            y < GRID_HEIGHT,
        ensures
            final(self).wf(),
            final(self).screen() == (Screen { x: x as int, y: y as int, ..old(self).screen() }),
            final(self).line() == old(self).line(),
            final(self).decoder() == old(self).decoder(),
    {
        self.cursor_x = x;
        self.cursor_y = y;
    }
}

/// The column where each banner row starts.
pub const BANNER_LEFT: usize = 27;

/// The color of one banner cell: a simple function of its position and the
/// animation phase, folded into the sixteen hardware colors.
pub open spec fn banner_color(col: int, row: int, phase: u8) -> u8 {
    ((col / 2 + row + phase) % 16) as u8
}

/// The display after drawing the rest of the banner text, from byte `i`
/// onward with the pen at the given column and row: a newline byte moves the
/// pen to the start of the next banner row; every other byte is a glyph that
/// lands at the pen — in its position's banner color — when the pen is
/// inside the grid, and is dropped when it is not. The pen never runs past
/// the grid edge by more than one step.
pub open spec fn after_banner(s: Screen, art: Seq<u8>, i: int, col: int, row: int, phase: u8) -> Screen
    decreases art.len() - i,
{
    if i < 0 || i >= art.len() {
        s
    } else {
        let b = art[i];
        if b == 0x0A {
            let nrow = if row < GRID_HEIGHT {
                row + 1
            } else {
                row
            };
            after_banner(s, art, i + 1, BANNER_LEFT as int, nrow, phase)
        } else {
            let ncol = if col < GRID_WIDTH {
                col + 1
            } else {
                col
            };
            if 0 <= col < GRID_WIDTH && 0 <= row < GRID_HEIGHT {
                let painted = Screen { color: banner_color(col, row, phase), ..s };
                after_banner(with_cell(painted, col, row, b), art, i + 1, ncol, row, phase)
            } else {
                after_banner(s, art, i + 1, ncol, row, phase)
            }
        }
    }
}

/// The display after printing the characters of a string from index `i`
/// onward, one `putchar` each.
pub open spec fn after_putchars(s: Screen, cs: Seq<char>, i: int) -> Screen
    decreases cs.len() - i,
{
    if i < 0 || i >= cs.len() {
        s
    } else {
        after_putchars(after_putchar(s, cs[i]), cs, i + 1)
    }
}

/// The color of one banner cell.
pub fn banner_color_value(col: usize, row: usize, phase: u8) -> (r: u8)
    requires
        col <= GRID_WIDTH,
        row <= GRID_HEIGHT,
    ensures
        r == banner_color(col as int, row as int, phase),
{
    ((col / 2 + row + phase as usize) % 16) as u8
}

impl VgaBuffer {
    /// Prints the characters of a string in order.
    pub fn write_str(&mut self, s: &str)
        requires
            old(self).wf(),
        ensures
            final(self).wf(),
            final(self).screen() == after_putchars(old(self).screen(), s@, 0),
            final(self).line() == old(self).line(),
            final(self).decoder() == old(self).decoder(),
    {
        let ghost t0 = *old(self);
        let len = s.unicode_len();
        let mut i: usize = 0;
        while i < len
            invariant
                i <= len,
                len == s@.len(),
                self.wf(),
                self.line() == t0.line(),
                self.decoder() == t0.decoder(),
                after_putchars(t0.screen(), s@, 0) == after_putchars(self.screen(), s@, i as int),
            decreases len - i,
        {
            let c = s.get_char(i);
            self.putchar(c);
            i += 1;
        }
    }

    /// Draws one frame of the banner: the art bytes land row by row from the
    /// banner's left column, each in its position's banner color; newline
    /// bytes in the art start the next row, and bytes that would fall
    /// outside the grid are dropped. The color of the last cell drawn stays
    /// current, as with any write.
    pub fn draw_banner(&mut self, art: &Vec<u8>, phase: u8)
        requires
            old(self).wf(),
        ensures
            final(self).wf(),
            final(self).screen() == after_banner(
                old(self).screen(),
                art@,
                0,
                BANNER_LEFT as int,
                0,
                phase,
            ),
            final(self).line() == old(self).line(),
            final(self).decoder() == old(self).decoder(),
    {
        let ghost t0 = *old(self);
        let mut i: usize = 0;
        let mut col: usize = BANNER_LEFT;
        let mut row: usize = 0;
        while i < art.len()
            invariant
                i <= art@.len(),
                col <= GRID_WIDTH,
                row <= GRID_HEIGHT,
                self.wf(),
                self.line() == t0.line(),
                self.decoder() == t0.decoder(),
                after_banner(t0.screen(), art@, 0, BANNER_LEFT as int, 0, phase) == after_banner(
                    self.screen(),
                    art@,
                    i as int,
                    col as int,
                    row as int,
                    phase,
                ),
            decreases art@.len() - i,
        {
            let b = art[i];
            if b == 0x0A {
                if row < GRID_HEIGHT {
                    row += 1;
                }
                col = BANNER_LEFT;
            } else {
                if col < GRID_WIDTH && row < GRID_HEIGHT {
                    let color = banner_color_value(col, row, phase);
                    self.set_color(color);
                    self.write_at(col, row, b);
                }
                if col < GRID_WIDTH {
                    col += 1;
                }
            }
            i += 1;
        }
    }
}

/// The display after `n` newlines in a row.
pub open spec fn after_newlines(s: Screen, n: nat) -> Screen
    decreases n,
{
    if n == 0 {
        s
    } else {
        after_newline(after_newlines(s, (n - 1) as nat))
    }
}

/// Law: newline after newline never pushes the cursor out: after any run of
/// newlines from a well-formed display, the cursor row is the smaller of
/// where it would land and the bottom row.
pub proof fn lemma_newlines_cursor(s: Screen, n: nat)
    requires
        screen_wf(s),
    ensures
        screen_wf(after_newlines(s, n)),
        after_newlines(s, n).y == if s.y + n < GRID_HEIGHT {
            s.y + n
        } else {
            GRID_HEIGHT - 1
        },
    decreases n,
{
    if n > 0 {
        lemma_newlines_cursor(s, (n - 1) as nat);
    }
}

/// Law: a full page of newlines leaves the cursor on the bottom row, still
/// inside the grid.
pub proof fn lemma_full_page_of_newlines(s: Screen)
    requires
        screen_wf(s),
    ensures
        screen_wf(after_newlines(s, GRID_HEIGHT as nat)),
        after_newlines(s, GRID_HEIGHT as nat).y == GRID_HEIGHT - 1,
{
    lemma_newlines_cursor(s, GRID_HEIGHT as nat);
}

/// Law: a newline from the bottom row scrolls the top row out of view —
/// every surviving cell comes from the row below its new place, and the new
/// bottom row is blank at the current color.
pub proof fn lemma_scroll_discards_top_row(s: Screen)
    requires
        screen_wf(s),
        s.y == GRID_HEIGHT - 1,
    ensures
        forall|i: int|
            0 <= i < GRID_CELLS - GRID_WIDTH ==> after_newline(s).grid[i] == s.grid[i
                + GRID_WIDTH],
        forall|i: int|
            GRID_CELLS - GRID_WIDTH <= i < GRID_CELLS ==> after_newline(s).grid[i] == cell_value(
                s.color,
                0,
            ),
{
}

/// Law: no completed print lands outside the grid — printing any character
/// on a well-formed display leaves a well-formed display, scrolling
/// included.
pub proof fn lemma_putchar_stays_in_bounds(s: Screen, c: char)
    requires
        screen_wf(s),
    ensures
        screen_wf(after_putchar(s, c)),
{
}

/// Law: a packed cell gives its glyph and its color back: the low byte is
/// the glyph, the high byte the color.
pub proof fn lemma_cell_roundtrip(color: u8, glyph: u8)
    ensures
        cell_value(color, glyph) & 0xFF == glyph,
        cell_value(color, glyph) >> 8 == color,
{
    assert((((color as u16) << 8) | (glyph as u16)) & 0xFF == glyph as u16) by (bit_vector);
    assert((((color as u16) << 8) | (glyph as u16)) >> 8 == color as u16) by (bit_vector);
}

/// Law: writing a glyph and reading the same cell straight back gives that
/// glyph, at the color the write used.
pub proof fn lemma_write_then_read(s: Screen, x: int, y: int, glyph: u8)
    requires
        screen_wf(s),
        0 <= x < GRID_WIDTH,
        0 <= y < GRID_HEIGHT,
    ensures
        with_cell(s, x, y, glyph).grid[y * GRID_WIDTH + x] & 0xFF == glyph,
        with_cell(s, x, y, glyph).grid[y * GRID_WIDTH + x] >> 8 == s.color,
{
    lemma_cell_roundtrip(s.color, glyph);
}

/// ASCII whitespace, as the line editor's word erase counts it.
pub open spec fn is_ws(b: u8) -> bool {
    b == 0x20 || (0x09 <= b && b <= 0x0D)
}

/// The line with its trailing whitespace run (with `ws`) or its trailing
/// word (without) cut off.
pub open spec fn strip_trailing(line: Seq<u8>, ws: bool) -> Seq<u8>
    decreases line.len(),
{
    if line.len() == 0 {
        line
    } else if is_ws(line.last()) == ws {
        strip_trailing(line.drop_last(), ws)
    } else {
        line
    }
}

/// The line after a word erase: the trailing whitespace run goes, then the
/// trailing word, keeping the whitespace before it.
pub open spec fn after_word_erase(line: Seq<u8>) -> Seq<u8> {
    strip_trailing(strip_trailing(line, true), false)
}

/// The line after a plain backspace: its last byte goes, if it has one.
pub open spec fn after_backspace(line: Seq<u8>) -> Seq<u8> {
    if line.len() == 0 {
        line
    } else {
        line.drop_last()
    }
}

/// The byte the line buffer stores for a decoded character: its scalar
/// value's low byte. Every character the decoder produces is ASCII, so the
/// byte is the character itself.
pub open spec fn line_byte(c: char) -> u8 {
    (c as u32) as u8
}

/// The line after one ordinary character: appended while the buffer has
/// room, silently dropped once it is full.
pub open spec fn after_insert(line: Seq<u8>, c: char) -> Seq<u8> {
    if line.len() < CMDLINE_CAPACITY {
        line.push(line_byte(c))
    } else {
        line
    }
}

/// A cut never lengthens the line: what the word erase leaves fits wherever
/// the line fit.
pub proof fn lemma_strip_trailing_len(line: Seq<u8>, ws: bool)
    ensures
        strip_trailing(line, ws).len() <= line.len(),
    decreases line.len(),
{
    if line.len() > 0 && is_ws(line.last()) == ws {
        lemma_strip_trailing_len(line.drop_last(), ws);
    }
}

/// Whether a byte is ASCII whitespace, as the word erase counts it.
fn ws_byte(b: u8) -> (r: bool)
    ensures
        r == is_ws(b),
{
    b == 0x20 || (0x09 <= b && b <= 0x0D)
}

/// Cuts the trailing whitespace run (with `ws`) or the trailing word
/// (without) off the buffer.
fn strip_trailing_bytes(v: &mut Vec<u8>, ws: bool)
    ensures
        final(v)@ == strip_trailing(old(v)@, ws),
{
    let ghost line0 = v@;
    let mut n = v.len();
    proof {
        assert(line0.take(n as int) =~= line0);
    }
    while n > 0 && ws_byte(v[n - 1]) == ws
        invariant
            n <= v@.len(),
            v@ == line0,
            strip_trailing(line0, ws) == strip_trailing(line0.take(n as int), ws),
        decreases n,
    {
        proof {
            assert(line0.take(n as int).drop_last() =~= line0.take(n - 1));
        }
        n -= 1;
    }
    proof {
        assert(line0.take(n as int) =~= line0.subrange(0, n as int));
        assert(strip_trailing(line0.take(n as int), ws) =~= line0.take(n as int));
    }
    v.truncate(n);
}

impl VgaBuffer {
    /// Feeds one scancode to the decoder and returns the at most one
    /// character it produces. The caller polls the keyboard controller and
    /// hands the scancode in; several polls may be needed to assemble one
    /// visible character, since modifier-only bytes consume a poll without
    /// producing output.
    pub fn get_char(&mut self, scancode: u8) -> (r: Option<char>)
        requires
            old(self).wf(),
        ensures
            final(self).wf(),
            final(self).screen() == old(self).screen(),
            final(self).line() == old(self).line(),
            final(self).decoder() == keyboard::stepped(old(self).decoder(), scancode),
            r == keyboard::decoded(
                old(self).decoder().state,
                scancode,
                old(self).decoder().modifiers,
            ),
    {
        self.keyboard.advance(scancode)
    }

    /// Feeds one scancode to the line editor. A decoded enter completes the
    /// line: its bytes come back and the buffer resets. A decoded backspace
    /// removes the last byte — or, with control held, the trailing word and
    /// the whitespace run after it. Any other decoded character is appended
    /// while the buffer has room and silently dropped once it is full; a
    /// scancode that decodes to nothing leaves the buffer alone.
    #[verifier::rlimit(100)]
    pub fn get_line(&mut self, scancode: u8) -> (r: Option<Vec<u8>>)
        requires
            old(self).wf(),
        ensures
            final(self).wf(),
            final(self).screen() == old(self).screen(),
            final(self).decoder() == keyboard::stepped(old(self).decoder(), scancode),
            ({
                let c = keyboard::decoded(
                    old(self).decoder().state,
                    scancode,
                    old(self).decoder().modifiers,
                );
                match c {
                    Option::None => r is None && final(self).line() == old(self).line(),
                    Option::Some(ch) => if ch == '\n' {
                        &&& r matches Some(line) && line@ == old(self).line()
                        &&& final(self).line().len() == 0
                    } else if ch == '\x08' {
                        &&& r is None
                        &&& final(self).line() == (if keyboard::spec_control(
                            final(self).decoder().modifiers,
                        ) {
                            after_word_erase(old(self).line())
                        } else {
                            after_backspace(old(self).line())
                        })
                    } else {
                        r is None && final(self).line() == after_insert(old(self).line(), ch)
                    },
                }
            }),
    {
        let c = match self.get_char(scancode) {
            Some(c) => c,
            None => {
                return None;
            },
        };
        if c == '\n' {
            let mut out: Vec<u8> = Vec::new();
            core::mem::swap(&mut out, &mut self.cmdline);
            Some(out)
        } else if c == '\x08' {
            if self.keyboard.modifiers().control() {
                proof {
                    lemma_strip_trailing_len(self.cmdline@, true);
                    lemma_strip_trailing_len(strip_trailing(self.cmdline@, true), false);
                }
                strip_trailing_bytes(&mut self.cmdline, true);
                strip_trailing_bytes(&mut self.cmdline, false);
            } else {
                let _ = self.cmdline.pop();
            }
            None
        } else {
            if self.cmdline.len() < CMDLINE_CAPACITY {
                self.cmdline.push((c as u32) as u8);
            }
            None
        }
    }
}

/// The linear cell offset of a cursor position, as the hardware cursor
/// registers take it.
pub fn cursor_offset(x: usize, y: usize) -> (r: u16)
    requires
        x < GRID_WIDTH,
        y < GRID_HEIGHT,
    ensures
        r == y * GRID_WIDTH + x,
{
    (y as u16) * 80 + (x as u16)
}

/// The byte for the low half of the cursor offset, pushed through the
/// index/data register pair under index 0x0F.
pub fn cursor_offset_low(x: usize, y: usize) -> (r: u8)
    requires
        x < GRID_WIDTH,
        y < GRID_HEIGHT,
    ensures
        r == (y * GRID_WIDTH + x) % 256,
{
    let pos = cursor_offset(x, y);
    proof {
        assert(pos & 0xFF == pos % 256) by (bit_vector);
    }
    (pos & 0xFF) as u8
}

/// The byte for the high half of the cursor offset, pushed through the
/// index/data register pair under index 0x0E.
pub fn cursor_offset_high(x: usize, y: usize) -> (r: u8)
    requires
        x < GRID_WIDTH,
        y < GRID_HEIGHT,
    ensures
        r == (y * GRID_WIDTH + x) / 256,
{
    let pos = cursor_offset(x, y);
    proof {
        assert((pos >> 8) & 0xFF == pos / 256) by (bit_vector);
    }
    ((pos >> 8) & 0xFF) as u8
}

/// The byte for the cursor-shape start register: the new start scanline laid
/// over the unrelated high bits already present in the register.
pub fn cursor_shape_start(prev: u8, start: u8) -> (r: u8)
    ensures
        r == (prev & 0xC0) | start,
{
    (prev & 0xC0) | start
}

/// The byte for the cursor-shape end register: the new end scanline laid
/// over the unrelated high bits already present in the register.
pub fn cursor_shape_end(prev: u8, end: u8) -> (r: u8)
    ensures
        r == (prev & 0xE0) | end,
{
    (prev & 0xE0) | end
}

/// Whether the keyboard controller's status byte reports a scancode ready:
/// its lowest bit is set.
pub fn kb_status_ready(status: u8) -> (r: bool)
    ensures
        r == ((status & 0x01) != 0),
{
    (status & 0x01) != 0
}

} // verus!

