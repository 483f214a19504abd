//! The character matrix backing the visible display: a fixed number of rows
//! of two-byte cells, stored row-major and touched only through volatile
//! reads and writes.

use vstd::prelude::*;

use crate::cell::{char_bits, char_of_bits, lemma_char_bits_inverse, pack_char, unpack_char,
    ScreenChar};
use crate::volatile_cell::{vol_new, vol_read, vol_value, vol_write};

verus! {

/// Number of rows of the display grid.
pub const BUFFER_HEIGHT: usize = 25;

/// Number of columns of the display grid.
pub const BUFFER_WIDTH: usize = 80;

/// The display grid. Its mathematical view is a sequence of
/// `BUFFER_HEIGHT` rows, each a sequence of `BUFFER_WIDTH` cells.
pub struct Buffer {
    chars: Vec<volatile::Volatile<u16>>,
}

impl View for Buffer {
    type V = Seq<Seq<ScreenChar>>;

    closed spec fn view(&self) -> Seq<Seq<ScreenChar>> {
        Seq::new(BUFFER_HEIGHT as nat, |r: int| Seq::new(BUFFER_WIDTH as nat, |c: int|
            char_of_bits(vol_value(self.chars@[r * BUFFER_WIDTH + c]))))
    }
}

/// A grid view of full size: the fixed number of rows, each of full width.
pub open spec fn wf_grid(g: Seq<Seq<ScreenChar>>) -> bool {
    g.len() == BUFFER_HEIGHT && forall|r: int| 0 <= r < g.len() ==> (#[trigger] g[r]).len() == BUFFER_WIDTH
}

impl Buffer {
    /// Well-formed: one stored value for every grid position.
    pub closed spec fn wf(self) -> bool {
        self.chars@.len() == BUFFER_HEIGHT * BUFFER_WIDTH
    }

    /// The view of any buffer has full size.
    pub proof fn lemma_view_wf(self)
        ensures
            wf_grid(self@),
    {
    }

    /// Builds a grid with every cell holding the given character.
    pub fn new_filled(fill: ScreenChar) -> (b: Buffer)
        ensures
            b.wf(),
            b@ == Seq::new(BUFFER_HEIGHT as nat, |r: int| Seq::new(BUFFER_WIDTH as nat, |c: int| fill)),
    {
        let bits: u16 = pack_char(fill);
        let mut chars: Vec<volatile::Volatile<u16>> = Vec::new();
        let mut i: usize = 0;
        while i < BUFFER_HEIGHT * BUFFER_WIDTH
            invariant
                i <= BUFFER_HEIGHT * BUFFER_WIDTH,
                bits == char_bits(fill),
                chars@.len() == i,
                forall|j: int| 0 <= j < i ==> vol_value(#[trigger] chars@[j]) == char_bits(fill),
            decreases BUFFER_HEIGHT * BUFFER_WIDTH - i,
        {
            let v = vol_new(bits);
            let ghost prev = chars@;
            chars.push(v);
            proof {
                assert(chars@ == prev.push(v));
                assert forall|j: int| 0 <= j < i + 1 implies vol_value(#[trigger] chars@[j]) == char_bits(fill) by {
                    assert(prev.len() == i);
                    if j < i {
                        assert(prev.push(v)[j] == prev[j]);
                        assert(vol_value(prev[j]) == char_bits(fill));
                    } else {
                        assert(j == prev.len());
                        assert(prev.push(v)[j] == v);
                        assert(vol_value(v) == char_bits(fill));
                    }
                    assert(chars@[j] == prev.push(v)[j]);
                }
            }
            i = i + 1;
        }
        let b = Buffer { chars };
        proof {
            lemma_char_bits_inverse(fill);
            assert(b@ =~~= Seq::new(BUFFER_HEIGHT as nat, |r: int| Seq::new(BUFFER_WIDTH as nat, |c: int| fill)));
        }
        b
    }

    /// Volatile read of the cell at (row, col). Indices must be in range;
    /// the writer never produces any other.
    pub fn read_cell(&self, row: usize, col: usize) -> (c: ScreenChar)
        requires
            self.wf(),
            row < BUFFER_HEIGHT,
            col < BUFFER_WIDTH,
        ensures
            c == self@[row as int][col as int],
    {
        let x: u16 = vol_read(&self.chars[row * BUFFER_WIDTH + col]);
        unpack_char(x)
    }

    /// Volatile write of the cell at (row, col); every other cell keeps its
    /// value. Indices must be in range; the writer never produces any other.
    pub fn write_cell(&mut self, row: usize, col: usize, c: ScreenChar)
        requires
            old(self).wf(),
            row < BUFFER_HEIGHT,
            col < BUFFER_WIDTH,
        ensures
            final(self).wf(),
            final(self)@ == old(self)@.update(row as int, old(self)@[row as int].update(col as int, c)),
    {
        let idx: usize = row * BUFFER_WIDTH + col;
        vol_write(&mut self.chars[idx], pack_char(c));
        proof {
            lemma_char_bits_inverse(c);
            lemma_flat_index(row as int, col as int);
            let gnew = old(self)@.update(row as int, old(self)@[row as int].update(col as int, c));
            assert forall|r: int| 0 <= r < BUFFER_HEIGHT implies self@[r] =~= gnew[r] by {
                assert forall|c2: int| 0 <= c2 < BUFFER_WIDTH implies self@[r][c2] == gnew[r][c2] by {
                    lemma_flat_index(r, c2);
                    if !(r == row as int && c2 == col as int) {
                        lemma_flat_index_distinct(row as int, col as int, r, c2);
                    }
                }
            }
            assert(self@ =~= gnew);
        }
    }
}

/// Every row-major index of an in-range grid position is in range.
proof fn lemma_flat_index(r: int, c: int)
    requires
        0 <= r < BUFFER_HEIGHT,
        0 <= c < BUFFER_WIDTH,
    ensures
        0 <= r * BUFFER_WIDTH + c < BUFFER_HEIGHT * BUFFER_WIDTH,
{
    assert(r * 80 + c < 25 * 80) by (nonlinear_arith)
        requires
            0 <= r < 25 && 0 <= c < 80,
    ;
}

/// Distinct in-range grid positions have distinct row-major indices.
proof fn lemma_flat_index_distinct(r: int, c: int, r2: int, c2: int)
    requires
        0 <= r < BUFFER_HEIGHT,
        0 <= c < BUFFER_WIDTH,
        0 <= r2 < BUFFER_HEIGHT,
        0 <= c2 < BUFFER_WIDTH,
        !(r2 == r && c2 == c),
    ensures
        r2 * BUFFER_WIDTH + c2 != r * BUFFER_WIDTH + c,
{
    assert(r2 * 80 + c2 != r * 80 + c) by (nonlinear_arith)
        requires
            0 <= r2 < 25 && 0 <= c2 < 80 && 0 <= r < 25 && 0 <= c < 80
                && !(r2 == r && c2 == c),
    ;
}

} // verus!
