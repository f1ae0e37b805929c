//! Fixed-grid text renderer: an 80x25 character grid with a cursor, a current
//! color attribute, and scrolling when a line overflows. The grid is modeled
//! as a row-major sequence of character cells; the hardware mirror of the grid
//! is maintained outside the library.

use vstd::prelude::*;
use vstd::pervasive::VecAdditionalExecFns;

use crate::locked::Locked;

verus! {

/// Number of text rows in the visible grid.
pub const BUFFER_HEIGHT: usize = 25;
/// Number of text columns in the visible grid.
pub const BUFFER_WIDTH: usize = 80;
/// The newline byte, which forces a scroll instead of printing a glyph.
pub const NEWLINE: u8 = 0x0a;
/// The blank glyph used when a row is cleared.
pub const BLANK: u8 = 0x20;
/// The fixed placeholder glyph shown for bytes outside the printable range.
pub const PLACEHOLDER: u8 = 0xfe;

/// The sixteen hardware palette colors of the text mode.
#[allow(dead_code)]
#[derive(Debug, Clone, Copy, PartialEq, Eq, Structural)]
pub enum Color {
    Black,
    Blue,
    Green,
    Cyan,
    Red,
    Magenta,
    Brown,
    LightGray,
    DarkGray,
    LightBlue,
    LightGreen,
    LightCyan,
    LightRed,
    Pink,
    Yellow,
    White,
}

impl Color {
    /// The palette index this color occupies in a color attribute byte.
    pub open spec fn spec_as_u8(self) -> u8 {
        match self {
            Color::Black => 0,
            Color::Blue => 1,
            Color::Green => 2,
            Color::Cyan => 3,
            Color::Red => 4,
            Color::Magenta => 5,
            Color::Brown => 6,
            Color::LightGray => 7,
            Color::DarkGray => 8,
            Color::LightBlue => 9,
            Color::LightGreen => 10,
            Color::LightCyan => 11,
            Color::LightRed => 12,
            Color::Pink => 13,
            Color::Yellow => 14,
            Color::White => 15,
        }
    }

    #[verifier::when_used_as_spec(spec_as_u8)]
    pub fn as_u8(self) -> (v: u8)
        ensures
            v == self.spec_as_u8(),
    {
        match self {
            Color::Black => 0,
            Color::Blue => 1,
            Color::Green => 2,
            Color::Cyan => 3,
            Color::Red => 4,
            Color::Magenta => 5,
            Color::Brown => 6,
            Color::LightGray => 7,
            Color::DarkGray => 8,
            Color::LightBlue => 9,
            Color::LightGreen => 10,
            Color::LightCyan => 11,
            Color::LightRed => 12,
            Color::Pink => 13,
            Color::Yellow => 14,
            Color::White => 15,
        }
    }
}

/// A packed color attribute: background in the high nibble, foreground in the
/// low nibble.
#[derive(Debug, Clone, Copy, PartialEq, Eq, Structural)]
pub struct ColorCode(pub u8);

impl ColorCode {
    pub fn new(foreground: Color, background: Color) -> (c: ColorCode)
        ensures
            c.0 == background.spec_as_u8() * 16 + foreground.spec_as_u8(),
    {
        let bg = background.as_u8();
        let fg = foreground.as_u8();
        assert((bg << 4u8) | fg == bg * 16 + fg) by (bit_vector)
            requires bg < 16 && fg < 16;
        ColorCode((bg << 4u8) | fg)
    }
}

/// One cell of the grid: a glyph together with its color attribute.
#[derive(Debug, Clone, Copy, PartialEq, Eq, Structural)]
pub struct ScreenChar {
    pub ascii_character: u8,
    pub color_code: ColorCode,
}

/// Mathematical state of the renderer: the grid as a row-major sequence of
/// cells, the cursor column on the last row, and the current color attribute.
#[verifier::ext_equal]
pub struct VgaState {
    pub grid: Seq<ScreenChar>,
    pub col: nat,
    pub color: ColorCode,
}

/// Row-major index of the cell at `(row, col)`.
pub open spec fn cell_index(row: int, col: int) -> int {
    row * BUFFER_WIDTH + col
}

/// A blank cell carrying the given color attribute.
pub open spec fn blank_char(color: ColorCode) -> ScreenChar {
    ScreenChar { ascii_character: BLANK, color_code: color }
}

impl VgaState {
    pub open spec fn wf(self) -> bool {
        &&& self.grid.len() == BUFFER_HEIGHT * BUFFER_WIDTH
        &&& self.col <= BUFFER_WIDTH
    }

    /// The cell at `(row, col)`.
    pub open spec fn cell(self, row: int, col: int) -> ScreenChar {
        self.grid[cell_index(row, col)]
    }
}

/// Every row moves up one position (row 0 is discarded), the last row becomes
/// blank in the current color, and the cursor returns to column 0.
pub open spec fn scrolled(s: VgaState) -> VgaState {
    VgaState {
        grid: Seq::new(
            s.grid.len(),
            |i: int|
                if i < cell_index(BUFFER_HEIGHT - 1, 0) {
                    s.grid[i + BUFFER_WIDTH]
                } else {
                    blank_char(s.color)
                },
        ),
        col: 0,
        color: s.color,
    }
}

/// The glyph `b` is placed at the cursor on the last row and the cursor
/// advances by one.
pub open spec fn put_char(s: VgaState, b: u8) -> VgaState {
    VgaState {
        grid: s.grid.update(
            cell_index(BUFFER_HEIGHT - 1, s.col as int),
            ScreenChar { ascii_character: b, color_code: s.color },
        ),
        col: s.col + 1,
        color: s.color,
    }
}

/// A byte is printable when the renderer shows it as itself: neither the
/// placeholder substitution nor the newline scroll applies.
pub open spec fn printable(b: u8) -> bool {
    BLANK <= b <= 0x7e
}

/// The glyph actually stored for a byte: printable ASCII as itself, any other
/// byte as the fixed placeholder. Newline never reaches this: it scrolls and
/// stores nothing.
pub open spec fn sanitize(b: u8) -> u8 {
    if printable(b) {
        b
    } else {
        PLACEHOLDER
    }
}

/// Effect of writing one byte: newline scrolls; otherwise the sanitized glyph
/// is placed at the cursor, with a scroll first when the line is full.
pub open spec fn write_byte_spec(s: VgaState, b: u8) -> VgaState {
    if b == NEWLINE {
        scrolled(s)
    } else if s.col >= BUFFER_WIDTH {
        put_char(scrolled(s), sanitize(b))
    } else {
        put_char(s, sanitize(b))
    }
}

/// Effect of writing a whole byte string, one byte at a time.
pub open spec fn write_string_spec(s: VgaState, bytes: Seq<u8>) -> VgaState
    decreases bytes.len(),
{
    if bytes.len() == 0 {
        s
    } else {
        write_string_spec(write_byte_spec(s, bytes[0]), bytes.skip(1))
    }
}

/// The text renderer. It owns the grid contents; the memory-mapped hardware
/// copy is kept in step by unverified code outside the library.
pub struct Writer {
    column_position: usize,
    color_code: ColorCode,
    buffer: Vec<ScreenChar>,
}

impl View for Writer {
    type V = VgaState;

    closed spec fn view(&self) -> VgaState {
        VgaState {
            grid: self.buffer@,
            col: self.column_position as nat,
            color: self.color_code,
        }
    }
}

impl Writer {
    /// A fresh writer: cursor at column 0, yellow on black, all cells blank.
    pub fn new() -> (w: Writer)
        ensures
            w@.wf(),
            w@.col == 0,
            w@.color.0 == 14,
            forall|i: int| 0 <= i < w@.grid.len() ==> w@.grid[i] == blank_char(w@.color),
    {
        let color_code = ColorCode::new(Color::Yellow, Color::Black);
        let blank = ScreenChar { ascii_character: BLANK, color_code };
        let mut buffer: Vec<ScreenChar> = Vec::new();
        let mut i: usize = 0;
        while i < BUFFER_HEIGHT * BUFFER_WIDTH
            invariant
                i <= BUFFER_HEIGHT * BUFFER_WIDTH,
                buffer@.len() == i,
                forall|j: int| 0 <= j < i ==> buffer@[j] == blank,
            decreases BUFFER_HEIGHT * BUFFER_WIDTH - i,
        {
            buffer.push(blank);
            i = i + 1;
        }
        Writer { column_position: 0, color_code, buffer }
    }

    /// Write one byte at the cursor: printable ASCII is placed as itself,
    /// newline scrolls, and any other byte is placed as the fixed placeholder
    /// glyph; a full line scrolls before a glyph is placed.
    pub fn write_byte(&mut self, byte: u8)
        requires
            old(self)@.wf(),
        ensures
            final(self)@ == write_byte_spec(old(self)@, byte),
            final(self)@.wf(),
    {
        if byte == NEWLINE {
            self.new_line();
        } else {
            let glyph = if BLANK <= byte && byte <= 0x7e {
                byte
            } else {
                PLACEHOLDER
            };
            if self.column_position >= BUFFER_WIDTH {
                self.new_line();
            }
            let row = BUFFER_HEIGHT - 1;
            let col = self.column_position;
            let color_code = self.color_code;
            self.buffer.set(
                row * BUFFER_WIDTH + col,
                ScreenChar { ascii_character: glyph, color_code },
            );
            self.column_position = col + 1;
        }
    }

    /// Write a byte string in order, each byte rendered as `write_byte`
    /// renders it.
    pub fn write_string(&mut self, s: &[u8])
        requires
            old(self)@.wf(),
        ensures
            final(self)@ == write_string_spec(old(self)@, s@),
            final(self)@.wf(),
    {
        let ghost s0 = self@;
        let mut i: usize = 0;
        while i < s.len()
            invariant
                i <= s@.len(),
                s0.wf(),
                self@.wf(),
                self@ == write_string_spec(s0, s@.take(i as int)),
            decreases s@.len() - i,
        {
            proof {
                assert(s@.take(i as int + 1) == s@.take(i as int).push(s@[i as int]));
                lemma_write_string_snoc(s0, s@.take(i as int), s@[i as int]);
            }
            self.write_byte(s[i]);
            i = i + 1;
        }
        proof {
            assert(s@.take(s@.len() as int) == s@);
        }
    }

    /// Current cursor column on the last row.
    pub fn column_position(&self) -> (c: usize)
        ensures
            c == self@.col,
    {
        self.column_position
    }

    /// Read the cell at `(row, col)` back from the grid.
    pub fn char_at(&self, row: usize, col: usize) -> (ch: ScreenChar)
        requires
            self@.wf(),
            row < BUFFER_HEIGHT,
            col < BUFFER_WIDTH,
        ensures
            ch == self@.cell(row as int, col as int),
    {
        self.buffer[row * BUFFER_WIDTH + col]
    }

    fn new_line(&mut self)
        requires
            old(self)@.wf(),
        ensures
            final(self)@ == scrolled(old(self)@),
            final(self)@.wf(),
    {
        let ghost s0 = self@;
        let mut row: usize = 1;
        while row < BUFFER_HEIGHT
            invariant
                1 <= row <= BUFFER_HEIGHT,
                s0.wf(),
                self@.grid.len() == s0.grid.len(),
                self@.col == s0.col,
                self@.color == s0.color,
                forall|i: int|
                    0 <= i < cell_index(row - 1, 0) ==> self@.grid[i] == s0.grid[i + BUFFER_WIDTH],
                forall|i: int|
                    cell_index(row - 1, 0) <= i < s0.grid.len() ==> self@.grid[i] == s0.grid[i],
            decreases BUFFER_HEIGHT - row,
        {
            let mut col: usize = 0;
            while col < BUFFER_WIDTH
                invariant
                    1 <= row < BUFFER_HEIGHT,
                    col <= BUFFER_WIDTH,
                    s0.wf(),
                    self@.grid.len() == s0.grid.len(),
                    self@.col == s0.col,
                    self@.color == s0.color,
                    forall|i: int|
                        0 <= i < cell_index(row - 1, col as int) ==> self@.grid[i] == s0.grid[i
                            + BUFFER_WIDTH],
                    forall|i: int|
                        cell_index(row - 1, col as int) <= i < s0.grid.len() ==> self@.grid[i]
                            == s0.grid[i],
                decreases BUFFER_WIDTH - col,
            {
                let character = self.buffer[row * BUFFER_WIDTH + col];
                self.buffer.set((row - 1) * BUFFER_WIDTH + col, character);
                col = col + 1;
            }
            row = row + 1;
        }
        self.clear_row(BUFFER_HEIGHT - 1);
        self.column_position = 0;
        proof {
            assert(self@.grid =~= scrolled(s0).grid);
            assert(self@ =~= scrolled(s0));
        }
    }

    fn clear_row(&mut self, row: usize)
        requires
            old(self)@.wf(),
            row < BUFFER_HEIGHT,
        ensures
            final(self)@.grid.len() == old(self)@.grid.len(),
            final(self)@.col == old(self)@.col,
            final(self)@.color == old(self)@.color,
            forall|i: int|
                0 <= i < old(self)@.grid.len() ==> final(self)@.grid[i] == (if cell_index(
                    row as int,
                    0,
                ) <= i < cell_index(row as int, BUFFER_WIDTH as int) {
                    blank_char(old(self)@.color)
                } else {
                    old(self)@.grid[i]
                }),
    {
        let blank = ScreenChar { ascii_character: BLANK, color_code: self.color_code };
        let ghost s0 = self@;
        let mut col: usize = 0;
        while col < BUFFER_WIDTH
            invariant
                col <= BUFFER_WIDTH,
                row < BUFFER_HEIGHT,
                s0.wf(),
                blank == blank_char(s0.color),
                self@.grid.len() == s0.grid.len(),
                self@.col == s0.col,
                self@.color == s0.color,
                forall|i: int|
                    0 <= i < s0.grid.len() ==> self@.grid[i] == (if cell_index(row as int, 0) <= i
                        < cell_index(row as int, col as int) {
                        blank_char(s0.color)
                    } else {
                        s0.grid[i]
                    }),
            decreases BUFFER_WIDTH - col,
        {
            self.buffer.set(row * BUFFER_WIDTH + col, blank);
            col = col + 1;
        }
    }
}

/// What one scroll does, row by row: every final row above the last equals
/// the old row one below it — the old top row is irreversibly discarded, no
/// cell of the grid retains it — the last row becomes all blanks in the
/// current color, the cursor returns to column 0, and the color is kept.
pub proof fn lemma_scrolled_rows(s: VgaState)
    requires
        s.wf(),
    ensures
        scrolled(s).wf(),
        scrolled(s).col == 0,
        scrolled(s).color == s.color,
        forall|r: int, c: int|
            0 <= r < BUFFER_HEIGHT - 1 && 0 <= c < BUFFER_WIDTH ==> scrolled(s).cell(r, c)
                == s.cell(r + 1, c),
        forall|r: int, c: int|
            r == BUFFER_HEIGHT - 1 && 0 <= c < BUFFER_WIDTH ==> scrolled(s).cell(r, c)
                == blank_char(s.color),
{
    assert forall|r: int, c: int|
        0 <= r < BUFFER_HEIGHT - 1 && 0 <= c < BUFFER_WIDTH implies scrolled(s).cell(r, c)
        == s.cell(r + 1, c) by {
        assert(cell_index(r, c) < cell_index(BUFFER_HEIGHT - 1, 0));
        assert(scrolled(s).cell(r, c) == s.grid[cell_index(r, c) + BUFFER_WIDTH]);
        assert(cell_index(r, c) + BUFFER_WIDTH == cell_index(r + 1, c));
    }
    assert forall|r: int, c: int|
        r == BUFFER_HEIGHT - 1 && 0 <= c < BUFFER_WIDTH implies scrolled(s).cell(r, c)
        == blank_char(s.color) by {
        assert(cell_index(r, c) >= cell_index(BUFFER_HEIGHT - 1, 0));
    }
}

/// Writing a string of printable bytes that fits on the current line scrolls
/// nothing: the cursor advances by exactly the string's length, every row
/// above the last is untouched, and reading the last row back yields each
/// input byte in order at the column it was written, in the current color;
/// the rest of the last row is untouched too.
pub proof fn lemma_write_string_in_row(s: VgaState, bytes: Seq<u8>)
    requires
        s.wf(),
        s.col + bytes.len() <= BUFFER_WIDTH,
        forall|i: int| 0 <= i < bytes.len() ==> printable(bytes[i]),
    ensures
        write_string_spec(s, bytes).wf(),
        write_string_spec(s, bytes).col == s.col + bytes.len(),
        write_string_spec(s, bytes).color == s.color,
        forall|r: int, c: int|
            0 <= r < BUFFER_HEIGHT - 1 && 0 <= c < BUFFER_WIDTH ==> write_string_spec(
                s,
                bytes,
            ).cell(r, c) == s.cell(r, c),
        forall|r: int, c: int|
            r == BUFFER_HEIGHT - 1 && s.col <= c < s.col + bytes.len() ==> write_string_spec(
                s,
                bytes,
            ).cell(r, c) == (ScreenChar {
                ascii_character: bytes[c - s.col],
                color_code: s.color,
            }),
        forall|r: int, c: int|
            r == BUFFER_HEIGHT - 1 && 0 <= c < BUFFER_WIDTH && !(s.col <= c < s.col
                + bytes.len()) ==> write_string_spec(s, bytes).cell(r, c) == s.cell(r, c),
    decreases bytes.len(),
{
    if bytes.len() > 0 {
        let b = bytes[0];
        assert(sanitize(b) == b);
        let s1 = write_byte_spec(s, b);
        assert(s1 == put_char(s, b));
        assert(write_string_spec(s, bytes) == write_string_spec(s1, bytes.skip(1)));
        lemma_write_string_in_row(s1, bytes.skip(1));
        let t = write_string_spec(s, bytes);
        assert forall|r: int, c: int|
            0 <= r < BUFFER_HEIGHT - 1 && 0 <= c < BUFFER_WIDTH implies t.cell(r, c) == s.cell(
            r,
            c,
        ) by {
            assert(cell_index(r, c) < cell_index(BUFFER_HEIGHT - 1, 0));
            assert(s1.cell(r, c) == s.cell(r, c));
        }
        assert forall|r: int, c: int|
            r == BUFFER_HEIGHT - 1 && s.col <= c < s.col + bytes.len() implies t.cell(r, c)
            == (ScreenChar { ascii_character: bytes[c - s.col], color_code: s.color }) by {
            if c == s.col {
                assert(s1.cell(r, c) == (ScreenChar { ascii_character: b, color_code: s.color }));
                assert(!(s1.col <= c < s1.col + bytes.skip(1).len()));
                assert(t.cell(r, c) == s1.cell(r, c));
            } else {
                assert(bytes.skip(1)[c - s1.col] == bytes[c - s.col]);
                assert(t.cell(r, c) == (ScreenChar {
                    ascii_character: bytes.skip(1)[c - s1.col],
                    color_code: s1.color,
                }));
            }
        }
        assert forall|r: int, c: int|
            r == BUFFER_HEIGHT - 1 && 0 <= c < BUFFER_WIDTH && !(s.col <= c < s.col
                + bytes.len()) implies t.cell(r, c) == s.cell(r, c) by {
            assert(!(s1.col <= c < s1.col + bytes.skip(1).len()));
            assert(t.cell(r, c) == s1.cell(r, c));
            assert(s1.cell(r, c) == s.cell(r, c));
        }
    }
}

/// Splitting a byte string anywhere splits the write.
pub proof fn lemma_write_string_append(s: VgaState, a: Seq<u8>, b: Seq<u8>)
    ensures
        write_string_spec(s, a + b) == write_string_spec(write_string_spec(s, a), b),
    decreases a.len(),
{
    if a.len() == 0 {
        assert(a + b =~= b);
    } else {
        assert((a + b)[0] == a[0]);
        assert((a + b).len() > 0);
        assert((a + b).skip(1) =~= a.skip(1) + b);
        assert(write_string_spec(s, a + b) == write_string_spec(
            write_byte_spec(s, a[0]),
            a.skip(1) + b,
        ));
        lemma_write_string_append(write_byte_spec(s, a[0]), a.skip(1), b);
    }
}

/// Writing more than one full row of printable bytes from the start of a line
/// scrolls exactly once. Afterwards every surviving row sits one position
/// higher (row 0's prior content is gone from the grid), the first row's
/// worth of bytes stands on the next-to-last row, and the freshly blanked
/// last row carries the overflow tail followed by blanks.
pub proof fn lemma_write_string_overflow(s: VgaState, bytes: Seq<u8>)
    requires
        s.wf(),
        s.col == 0,
        BUFFER_WIDTH < bytes.len() <= 2 * BUFFER_WIDTH,
        forall|i: int| 0 <= i < bytes.len() ==> printable(bytes[i]),
    ensures
        write_string_spec(s, bytes).wf(),
        write_string_spec(s, bytes).color == s.color,
        write_string_spec(s, bytes).col == bytes.len() - BUFFER_WIDTH,
        forall|r: int, c: int|
            0 <= r < BUFFER_HEIGHT - 2 && 0 <= c < BUFFER_WIDTH ==> write_string_spec(
                s,
                bytes,
            ).cell(r, c) == s.cell(r + 1, c),
        forall|r: int, c: int|
            r == BUFFER_HEIGHT - 2 && 0 <= c < BUFFER_WIDTH ==> write_string_spec(s, bytes).cell(
                r,
                c,
            ) == (ScreenChar { ascii_character: bytes[c], color_code: s.color }),
        forall|r: int, c: int|
            r == BUFFER_HEIGHT - 1 && 0 <= c < bytes.len() - BUFFER_WIDTH ==> write_string_spec(
                s,
                bytes,
            ).cell(r, c) == (ScreenChar {
                ascii_character: bytes[BUFFER_WIDTH + c],
                color_code: s.color,
            }),
        forall|r: int, c: int|
            r == BUFFER_HEIGHT - 1 && bytes.len() - BUFFER_WIDTH <= c < BUFFER_WIDTH
                ==> write_string_spec(s, bytes).cell(r, c) == blank_char(s.color),
{
    let head = bytes.take(BUFFER_WIDTH as int);
    let tail = bytes.skip(BUFFER_WIDTH as int);
    assert(bytes =~= head + tail);
    lemma_write_string_append(s, head, tail);
    lemma_write_string_in_row(s, head);
    let sa = write_string_spec(s, head);
    let scr = scrolled(sa);
    assert(tail.len() > 0);
    assert(sanitize(tail[0]) == tail[0]);
    assert(write_byte_spec(sa, tail[0]) == put_char(scr, tail[0]));
    assert(write_byte_spec(scr, tail[0]) == put_char(scr, tail[0]));
    assert(write_string_spec(sa, tail) == write_string_spec(
        write_byte_spec(sa, tail[0]),
        tail.skip(1),
    ));
    assert(write_string_spec(scr, tail) == write_string_spec(
        write_byte_spec(scr, tail[0]),
        tail.skip(1),
    ));
    assert(write_string_spec(sa, tail) == write_string_spec(scr, tail));
    lemma_write_string_in_row(scr, tail);
    let t = write_string_spec(s, bytes);
    assert(t == write_string_spec(scr, tail));
    assert forall|r: int, c: int|
        0 <= r < BUFFER_HEIGHT - 2 && 0 <= c < BUFFER_WIDTH implies t.cell(r, c) == s.cell(
        r + 1,
        c,
    ) by {
        assert(cell_index(r, c) < cell_index(BUFFER_HEIGHT - 1, 0));
        assert(t.cell(r, c) == scr.cell(r, c));
        assert(scr.cell(r, c) == sa.grid[cell_index(r, c) + BUFFER_WIDTH]);
        assert(cell_index(r, c) + BUFFER_WIDTH == cell_index(r + 1, c));
        assert(sa.cell(r + 1, c) == s.cell(r + 1, c));
    }
    assert forall|r: int, c: int| r == BUFFER_HEIGHT - 2 && 0 <= c < BUFFER_WIDTH implies t.cell(
        r,
        c,
    ) == (ScreenChar { ascii_character: bytes[c], color_code: s.color }) by {
        assert(cell_index(r, c) < cell_index(BUFFER_HEIGHT - 1, 0));
        assert(t.cell(r, c) == scr.cell(r, c));
        assert(scr.cell(r, c) == sa.grid[cell_index(r, c) + BUFFER_WIDTH]);
        assert(cell_index(r, c) + BUFFER_WIDTH == cell_index(BUFFER_HEIGHT - 1, c));
        assert(sa.cell(BUFFER_HEIGHT - 1, c) == (ScreenChar {
            ascii_character: head[c],
            color_code: s.color,
        }));
    }
    assert forall|r: int, c: int|
        r == BUFFER_HEIGHT - 1 && 0 <= c < bytes.len() - BUFFER_WIDTH implies t.cell(r, c)
        == (ScreenChar { ascii_character: bytes[BUFFER_WIDTH + c], color_code: s.color }) by {
        assert(tail[c] == bytes[BUFFER_WIDTH + c]);
        assert(scr.col <= c < scr.col + tail.len());
        assert(t.cell(r, c) == (ScreenChar {
            ascii_character: tail[c - scr.col],
            color_code: scr.color,
        }));
    }
    assert forall|r: int, c: int|
        r == BUFFER_HEIGHT - 1 && bytes.len() - BUFFER_WIDTH <= c < BUFFER_WIDTH implies t.cell(
        r,
        c,
    ) == blank_char(s.color) by {
        assert(!(scr.col <= c < scr.col + tail.len()));
        assert(t.cell(r, c) == scr.cell(r, c));
        assert(cell_index(r, c) >= cell_index(BUFFER_HEIGHT - 1, 0));
        assert(scr.cell(r, c) == blank_char(sa.color));
    }
}

/// Write bytes to the text writer under its lock: the text output boundary
/// behind the print macro layer.
pub fn _print(vga: &mut Locked<Writer>, s: &[u8])
    requires
        !old(vga).is_held(),
        old(vga).inner()@.wf(),
    ensures
        !final(vga).is_held(),
        final(vga).inner()@.wf(),
        final(vga).inner()@ == write_string_spec(old(vga).inner()@, s@),
{
    let mut writer = vga.acquire();
    writer.write_string(s);
    vga.release(writer);
}

/// Writing `bytes` and then one more byte is writing `bytes.push(b)`.
proof fn lemma_write_string_snoc(s: VgaState, bytes: Seq<u8>, b: u8)
    ensures
        write_string_spec(s, bytes.push(b)) == write_byte_spec(write_string_spec(s, bytes), b),
    decreases bytes.len(),
{
    let snoc = bytes.push(b);
    if bytes.len() == 0 {
        assert(snoc[0] == b);
        assert(snoc.skip(1) =~= Seq::<u8>::empty());
        assert(write_string_spec(s, snoc) == write_string_spec(
            write_byte_spec(s, b),
            snoc.skip(1),
        ));
        assert(write_string_spec(write_byte_spec(s, b), snoc.skip(1)) == write_byte_spec(s, b));
    } else {
        assert(snoc[0] == bytes[0]);
        assert(snoc.skip(1) =~= bytes.skip(1).push(b));
        assert(write_string_spec(s, snoc) == write_string_spec(
            write_byte_spec(s, bytes[0]),
            bytes.skip(1).push(b),
        ));
        lemma_write_string_snoc(write_byte_spec(s, bytes[0]), bytes.skip(1), b);
    }
}

} // verus!
