//! The cursor-tracking writer: byte and text emission into the grid, with
//! line wrapping, scrolling on newline, and substitution of bytes the
//! display cannot show.

use vstd::prelude::*;
use vstd::string::StringSliceAdditionalSpecFns;

use crate::cell::ScreenChar;
use crate::color::ColorCode;
use crate::grid::{wf_grid, Buffer, BUFFER_HEIGHT, BUFFER_WIDTH};

verus! {

/// The byte that triggers a line advance instead of a visible cell.
pub const NEWLINE: u8 = 0x0a;

/// The fixed glyph drawn in place of a byte the display cannot show.
pub const SUBSTITUTE_BYTE: u8 = 0xfe;

/// The ASCII code of the blank cell (a space).
pub const BLANK_BYTE: u8 = 0x20;

/// A blank cell: a space drawn in the given colour.
pub open spec fn blank_char(cc: ColorCode) -> ScreenChar {
    ScreenChar { ascii_character: BLANK_BYTE, color_code: cc }
}

/// A full row of blank cells.
pub open spec fn blank_row(cc: ColorCode) -> Seq<ScreenChar> {
    Seq::new(BUFFER_WIDTH as nat, |c: int| blank_char(cc))
}

/// A grid of nothing but blank cells in the given colour.
pub open spec fn cleared_grid(cc: ColorCode) -> Seq<Seq<ScreenChar>> {
    Seq::new(BUFFER_HEIGHT as nat, |r: int| blank_row(cc))
}

/// The grid after a line advance: every row moves up one place, the old top
/// row is discarded, and the freed last row is blank in the active colour.
pub open spec fn scrolled(g: Seq<Seq<ScreenChar>>, cc: ColorCode) -> Seq<Seq<ScreenChar>> {
    Seq::new(BUFFER_HEIGHT as nat, |r: int|
        if r < BUFFER_HEIGHT - 1 { g[r + 1] } else { blank_row(cc) })
}

/// The grid after drawing byte `b` at column `col` of the last row in the
/// given colour.
pub open spec fn drawn(g: Seq<Seq<ScreenChar>>, col: int, b: u8, cc: ColorCode) -> Seq<Seq<ScreenChar>> {
    g.update(BUFFER_HEIGHT - 1, g[BUFFER_HEIGHT - 1].update(col, ScreenChar { ascii_character: b, color_code: cc }))
}

/// One writer step on one byte: a newline scrolls and writes no visible
/// cell; any other byte is drawn at the cursor on the last row, after a
/// scroll when that row is already full. Yields the new grid and the new
/// cursor column.
pub open spec fn byte_step(g: Seq<Seq<ScreenChar>>, col: int, cc: ColorCode, b: u8) -> (Seq<Seq<ScreenChar>>, int) {
    if b == NEWLINE {
        (scrolled(g, cc), 0)
    } else if col >= BUFFER_WIDTH {
        (drawn(scrolled(g, cc), 0, b, cc), 1)
    } else {
        (drawn(g, col, b, cc), col + 1)
    }
}

/// A byte the display renders as itself: printable ASCII or the newline.
pub open spec fn renderable(b: u8) -> bool {
    (0x20 <= b && b <= 0x7e) || b == NEWLINE
}

/// The byte the writer forwards for input byte `b`: printable ASCII and the
/// newline pass unchanged, anything else becomes the substitute glyph.
pub open spec fn sanitized(b: u8) -> u8 {
    if renderable(b) { b } else { SUBSTITUTE_BYTE }
}

/// The writer state after sanitising and writing every byte of `s` in turn.
pub open spec fn text_steps(g: Seq<Seq<ScreenChar>>, col: int, cc: ColorCode, s: Seq<u8>) -> (Seq<Seq<ScreenChar>>, int)
    decreases s.len(),
{
    if s.len() <= 0 {
        (g, col)
    } else {
        let stepped = byte_step(g, col, cc, sanitized(s[0]));
        text_steps(stepped.0, stepped.1, cc, s.drop_first())
    }
}

/// Appending one byte to a text is one more writer step at the end.
pub proof fn lemma_text_steps_push(g: Seq<Seq<ScreenChar>>, col: int, cc: ColorCode, s: Seq<u8>, b: u8)
    ensures
        ({
            let mid = text_steps(g, col, cc, s);
            text_steps(g, col, cc, s.push(b)) == byte_step(mid.0, mid.1, cc, sanitized(b))
        }),
    decreases s.len(),
{
    reveal_with_fuel(text_steps, 3);
    if s.len() == 0 {
        assert(s.push(b)[0] == b);
        assert(s.push(b).drop_first() =~= Seq::<u8>::empty());
    } else {
        assert(s.push(b)[0] == s[0]);
        assert(s.push(b).drop_first() =~= s.drop_first().push(b));
        let stepped = byte_step(g, col, cc, sanitized(s[0]));
        lemma_text_steps_push(stepped.0, stepped.1, cc, s.drop_first(), b);
    }
}

/// Owns the grid, tracks the cursor column on the last row and the active
/// colour; always writes to the last row and scrolls older content upward.
pub struct Writer {
    column_position: usize,
    color_code: ColorCode,
    buffer: Buffer,
}

impl Writer {
    /// Well-formed: the grid is fully backed and the cursor column denotes
    /// the next free slot on the last row, so it never passes the width.
    pub closed spec fn wf(self) -> bool {
        self.buffer.wf() && self.column_position <= BUFFER_WIDTH
    }

    /// The grid contents, row by row.
    pub closed spec fn grid(self) -> Seq<Seq<ScreenChar>> {
        self.buffer@
    }

    /// The cursor column on the last row.
    pub closed spec fn col(self) -> int {
        self.column_position as int
    }

    /// The colour used for subsequent writes.
    pub closed spec fn color(self) -> ColorCode {
        self.color_code
    }

    /// The grid of any writer has full size.
    pub proof fn lemma_grid_wf(self)
        ensures
            wf_grid(self.grid()),
    {
        self.buffer.lemma_view_wf();
    }

    /// Builds a writer over a cleared grid: every cell blank in the given
    /// colour, cursor at the start of the last row.
    pub fn new(color: ColorCode) -> (w: Writer)
        ensures
            w.wf(),
            w.col() == 0,
            w.color() == color,
            w.grid() == cleared_grid(color),
    {
        let blank = ScreenChar { ascii_character: BLANK_BYTE, color_code: color };
        let buffer = Buffer::new_filled(blank);
        proof {
            assert(buffer@ =~~= cleared_grid(color));
        }
        Writer { column_position: 0, color_code: color, buffer }
    }

    /// Writes a single byte: a newline only advances the line; any other
    /// byte lands as a cell at the cursor, wrapping to a fresh line first
    /// when the last row is full.
    pub fn write_byte(&mut self, byte: u8)
        requires
            old(self).wf(),
        ensures
            final(self).wf(),
            final(self).color() == old(self).color(),
            (final(self).grid(), final(self).col())
                == byte_step(old(self).grid(), old(self).col(), old(self).color(), byte),
    {
        if byte == NEWLINE {
            self.new_line();
        } else {
            if self.column_position >= BUFFER_WIDTH {
                self.new_line();
            }
            let row: usize = BUFFER_HEIGHT - 1;
            let col: usize = self.column_position;
            let color_code = self.color_code;
            self.buffer.write_cell(row, col, ScreenChar { ascii_character: byte, color_code });
            self.column_position = self.column_position + 1;
        }
    }

    /// Writes a text byte by byte: printable ASCII and newlines are
    /// forwarded unchanged, every other byte as the substitute glyph.
    pub fn write_string(&mut self, s: &str)
        requires
            old(self).wf(),
        ensures
            final(self).wf(),
            final(self).color() == old(self).color(),
            (final(self).grid(), final(self).col())
                == text_steps(old(self).grid(), old(self).col(), old(self).color(), s.spec_bytes()),
    {
        let ghost g0 = self.grid();
        let ghost c0 = self.col();
        let ghost cc = self.color();
        let bytes = s.as_bytes();
        let n: usize = bytes.len();
        let mut i: usize = 0;
        while i < n
            invariant
                i <= n,
                n == bytes@.len(),
                bytes@ == s.spec_bytes(),
                self.wf(),
                self.color() == cc,
                (self.grid(), self.col()) == text_steps(g0, c0, cc, bytes@.take(i as int)),
            decreases n - i,
        {
            let byte: u8 = bytes[i];
            let forwarded: u8 = if (0x20 <= byte && byte <= 0x7e) || byte == NEWLINE {
                byte
            } else {
                SUBSTITUTE_BYTE
            };
            proof {
                assert(forwarded == sanitized(bytes@[i as int]));
            }
            self.write_byte(forwarded);
            proof {
                lemma_text_steps_push(g0, c0, cc, bytes@.take(i as int), bytes@[i as int]);
                assert(bytes@.take(i as int).push(bytes@[i as int]) =~= bytes@.take(i + 1));
            }
            i = i + 1;
        }
        proof {
            assert(bytes@.take(n as int) =~= bytes@);
        }
    }

    /// Replaces the colour used for subsequent writes; cells already on the
    /// grid keep the colour they were drawn with.
    pub fn set_color(&mut self, color: ColorCode)
        ensures
            final(self).wf() == old(self).wf(),
            final(self).color() == color,
            final(self).grid() == old(self).grid(),
            final(self).col() == old(self).col(),
    {
        self.color_code = color;
    }

    /// The current cursor column: the next free slot on the last row.
    pub fn column(&self) -> (c: usize)
        ensures
            c == self.col(),
    {
        self.column_position
    }

    /// Volatile read of the cell at (row, col) of the grid.
    pub fn read_cell(&self, row: usize, col: usize) -> (c: ScreenChar)
        requires
            self.wf(),
            row < BUFFER_HEIGHT,
            col < BUFFER_WIDTH,
        ensures
            c == self.grid()[row as int][col as int],
    {
        self.buffer.read_cell(row, col)
    }

    /// Line advance: every row moves up one place — the old top row is
    /// gone for good — the freed last row is cleared to blanks in the
    /// active colour, and the cursor returns to column zero.
    #[verifier::loop_isolation(false)]
    fn new_line(&mut self)
        requires
            old(self).wf(),
        ensures
            final(self).wf(),
            final(self).color() == old(self).color(),
            final(self).col() == 0,
            final(self).grid() == scrolled(old(self).grid(), old(self).color()),
    {
        let ghost g0 = self.buffer@;
        proof {
            self.buffer.lemma_view_wf();
        }
        let mut row: usize = 1;
        while row < BUFFER_HEIGHT
            invariant
                1 <= row <= BUFFER_HEIGHT,
                self.buffer.wf(),
                wf_grid(self.buffer@),
                wf_grid(g0),
                self.color_code == old(self).color_code,
                self.column_position == old(self).column_position,
                forall|r: int| 0 <= r < row - 1 ==> self.buffer@[r] == g0[r + 1],
                forall|r: int| row - 1 <= r < BUFFER_HEIGHT ==> self.buffer@[r] == g0[r],
            decreases BUFFER_HEIGHT - row,
        {
            let ghost dst: int = row - 1;
            let mut col: usize = 0;
            while col < BUFFER_WIDTH
                invariant
                    1 <= row < BUFFER_HEIGHT,
                    col <= BUFFER_WIDTH,
                    dst == row - 1,
                    self.buffer.wf(),
                    wf_grid(self.buffer@),
                    wf_grid(g0),
                    self.color_code == old(self).color_code,
                    self.column_position == old(self).column_position,
                    forall|r: int| 0 <= r < row - 1 ==> self.buffer@[r] == g0[r + 1],
                    forall|r: int| row <= r < BUFFER_HEIGHT ==> self.buffer@[r] == g0[r],
                    forall|j: int| 0 <= j < col ==> #[trigger] self.buffer@[dst][j] == g0[row as int][j],
                    forall|j: int| col <= j < BUFFER_WIDTH ==> #[trigger] self.buffer@[dst][j] == g0[dst][j],
                decreases BUFFER_WIDTH - col,
            {
                let character = self.buffer.read_cell(row, col);
                self.buffer.write_cell(row - 1, col, character);
                proof {
                    self.buffer.lemma_view_wf();
                }
                col = col + 1;
            }
            proof {
                assert(self.buffer@[row - 1] =~= g0[row as int]);
            }
            row = row + 1;
        }
        self.clear_row(BUFFER_HEIGHT - 1);
        self.column_position = 0;
        proof {
            self.buffer.lemma_view_wf();
            assert(self.buffer@ =~= scrolled(g0, old(self).color_code));
        }
    }

    /// Overwrites every cell of the given row with a blank in the active
    /// colour.
    #[verifier::loop_isolation(false)]
    fn clear_row(&mut self, row: usize)
        requires
            old(self).wf(),
            row < BUFFER_HEIGHT,
        ensures
            final(self).wf(),
            final(self).color() == old(self).color(),
            final(self).col() == old(self).col(),
            final(self).grid() == old(self).grid().update(row as int, blank_row(old(self).color())),
    {
        let ghost g0 = self.buffer@;
        proof {
            self.buffer.lemma_view_wf();
        }
        let blank = ScreenChar { ascii_character: BLANK_BYTE, color_code: self.color_code };
        let mut col: usize = 0;
        while col < BUFFER_WIDTH
            invariant
                col <= BUFFER_WIDTH,
                self.buffer.wf(),
                wf_grid(self.buffer@),
                wf_grid(g0),
                self.color_code == old(self).color_code,
                self.column_position == old(self).column_position,
                blank == blank_char(old(self).color_code),
                forall|r: int| 0 <= r < BUFFER_HEIGHT && r != row ==> self.buffer@[r] == g0[r],
                forall|j: int| 0 <= j < col ==> #[trigger] self.buffer@[row as int][j] == blank,
                forall|j: int| col <= j < BUFFER_WIDTH ==> #[trigger] self.buffer@[row as int][j] == g0[row as int][j],
            decreases BUFFER_WIDTH - col,
        {
            self.buffer.write_cell(row, col, blank);
            proof {
                self.buffer.lemma_view_wf();
            }
            col = col + 1;
        }
        proof {
            self.buffer.lemma_view_wf();
            assert(self.buffer@[row as int] =~= blank_row(old(self).color_code));
            assert(self.buffer@ =~= g0.update(row as int, blank_row(old(self).color_code)));
        }
    }
}

/// Forwards already-rendered text to the writer. The formatting front end
/// renders its arguments to text and hands the result here; the write path
/// itself has no failure mode.
pub fn _print(w: &mut Writer, s: &str)
    requires
        old(w).wf(),
    ensures
        final(w).wf(),
        final(w).color() == old(w).color(),
        (final(w).grid(), final(w).col())
            == text_steps(old(w).grid(), old(w).col(), old(w).color(), s.spec_bytes()),
{
    w.write_string(s);
}

} // verus!
