//! Laws of the writer's byte and text transitions, stated over the same
//! spec functions that the writer's contracts use, and proved once and for
//! all.

use vstd::prelude::*;

use crate::cell::ScreenChar;
use crate::color::ColorCode;
use crate::grid::{wf_grid, BUFFER_HEIGHT, BUFFER_WIDTH};
use crate::writer::{blank_row, byte_step, drawn, lemma_text_steps_push, sanitized, scrolled,
    text_steps, NEWLINE, SUBSTITUTE_BYTE};

verus! {

/// The last row of a grid, the one the writer draws on.
pub open spec fn last_row(g: Seq<Seq<ScreenChar>>) -> Seq<ScreenChar> {
    g[BUFFER_HEIGHT - 1]
}

/// Law: a printable byte written while the last row has room lands at the
/// cursor in the active colour, advances the cursor by exactly one, and
/// leaves every row above the last unchanged.
pub proof fn lemma_printable_byte_advances(g: Seq<Seq<ScreenChar>>, col: int, cc: ColorCode, b: u8)
    requires
        wf_grid(g),
        0 <= col < BUFFER_WIDTH,
        0x20 <= b <= 0x7e,
    ensures
        byte_step(g, col, cc, b).1 == col + 1,
        forall|r: int| 0 <= r < BUFFER_HEIGHT - 1 ==> #[trigger] byte_step(g, col, cc, b).0[r] == g[r],
        last_row(byte_step(g, col, cc, b).0)[col] == (ScreenChar { ascii_character: b, color_code: cc }),
{
}

/// Law: the newline byte writes no visible cell — the new grid is exactly
/// the scrolled old grid, whatever the cursor was — and the cursor column
/// is reset to zero.
pub proof fn lemma_newline_resets(g: Seq<Seq<ScreenChar>>, col: int, cc: ColorCode)
    ensures
        byte_step(g, col, cc, NEWLINE) == (scrolled(g, cc), 0int),
{
}

/// Law: a line advance moves every row up one place — new row r holds what
/// old row r + 1 held, so the old top row is discarded — and the freed last
/// row is entirely blank in the active colour.
pub proof fn lemma_scroll_shifts_rows(g: Seq<Seq<ScreenChar>>, cc: ColorCode)
    ensures
        scrolled(g, cc).len() == BUFFER_HEIGHT,
        forall|r: int| 0 <= r < BUFFER_HEIGHT - 1 ==> #[trigger] scrolled(g, cc)[r] == g[r + 1],
        last_row(scrolled(g, cc)) == blank_row(cc),
{
}

/// Law: a byte outside the printable range that is not the newline is
/// forwarded as the fixed substitute glyph; it is never rendered as its
/// original value unless that value already is the glyph's own code.
pub proof fn lemma_substitution(b: u8)
    requires
        !(0x20 <= b && b <= 0x7e),
        b != NEWLINE,
    ensures
        sanitized(b) == SUBSTITUTE_BYTE,
        b != SUBSTITUTE_BYTE ==> sanitized(b) != b,
{
}

/// Law: a run of printable bytes that fits on the rest of the last row is
/// written back-to-back from the starting column, each byte as its own cell
/// in the active colour; the cursor moves by the length of the run, no line
/// advance happens, and every other cell keeps its value. Reading those
/// cells back therefore yields exactly the bytes written.
pub proof fn lemma_printable_run(g: Seq<Seq<ScreenChar>>, col: int, cc: ColorCode, s: Seq<u8>)
    requires
        wf_grid(g),
        0 <= col,
        col + s.len() <= BUFFER_WIDTH,
        forall|i: int| 0 <= i < s.len() ==> 0x20 <= #[trigger] s[i] <= 0x7e,
    ensures
        text_steps(g, col, cc, s).1 == col + s.len(),
        forall|r: int| 0 <= r < BUFFER_HEIGHT - 1 ==> #[trigger] text_steps(g, col, cc, s).0[r] == g[r],
        forall|j: int| col <= j < col + s.len() ==> #[trigger] last_row(text_steps(g, col, cc, s).0)[j]
            == (ScreenChar { ascii_character: s[j - col], color_code: cc }),
        forall|j: int| (0 <= j < col || col + s.len() <= j < BUFFER_WIDTH)
            ==> #[trigger] last_row(text_steps(g, col, cc, s).0)[j] == last_row(g)[j],
    decreases s.len(),
{
    if s.len() > 0 {
        let stepped = byte_step(g, col, cc, sanitized(s[0]));
        assert(sanitized(s[0]) == s[0]);
        assert(stepped == (drawn(g, col, s[0], cc), col + 1));
        assert(wf_grid(stepped.0));
        lemma_printable_run(stepped.0, col + 1, cc, s.drop_first());
        let end = text_steps(g, col, cc, s);
        assert(end == text_steps(stepped.0, col + 1, cc, s.drop_first()));
        assert forall|j: int| col <= j < col + s.len() implies #[trigger] last_row(end.0)[j]
            == (ScreenChar { ascii_character: s[j - col], color_code: cc }) by {
            if j == col {
                assert(last_row(end.0)[j] == last_row(stepped.0)[j]);
                assert(last_row(stepped.0)[j] == (ScreenChar { ascii_character: s[0], color_code: cc }));
            } else {
                assert(last_row(end.0)[j] == (ScreenChar { ascii_character: s.drop_first()[j - (col + 1)], color_code: cc }));
                assert(s.drop_first()[j - (col + 1)] == s[j - col]);
            }
        }
    }
}

/// Law: from the start of the last row, the first 80 printable bytes fill
/// the row with no line advance; the 81st byte forces exactly one, lands at
/// column 0 of the freed row, and leaves the cursor at column 1.
pub proof fn lemma_wrap_on_81st(g: Seq<Seq<ScreenChar>>, cc: ColorCode, s: Seq<u8>)
    requires
        wf_grid(g),
        s.len() == BUFFER_WIDTH + 1,
        forall|i: int| 0 <= i < s.len() ==> 0x20 <= #[trigger] s[i] <= 0x7e,
    ensures
        text_steps(g, 0, cc, s.take(BUFFER_WIDTH as int)).1 == BUFFER_WIDTH,
        forall|r: int| 0 <= r < BUFFER_HEIGHT - 1
            ==> #[trigger] text_steps(g, 0, cc, s.take(BUFFER_WIDTH as int)).0[r] == g[r],
        text_steps(g, 0, cc, s) == (drawn(
            scrolled(text_steps(g, 0, cc, s.take(BUFFER_WIDTH as int)).0, cc),
            0,
            s[BUFFER_WIDTH as int],
            cc,
        ), 1int),
{
    let prefix = s.take(BUFFER_WIDTH as int);
    assert(forall|i: int| 0 <= i < prefix.len() ==> 0x20 <= #[trigger] prefix[i] <= 0x7e);
    lemma_printable_run(g, 0, cc, prefix);
    assert(s =~= prefix.push(s[BUFFER_WIDTH as int]));
    lemma_text_steps_push(g, 0, cc, prefix, s[BUFFER_WIDTH as int]);
    let mid = text_steps(g, 0, cc, prefix);
    assert(text_steps(g, 0, cc, s) == byte_step(mid.0, mid.1, cc, sanitized(s[BUFFER_WIDTH as int])));
}

} // verus!
