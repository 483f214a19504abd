use vga_text::cell::ScreenChar;
use vga_text::color::{Color, ColorCode};
use vga_text::grid::{BUFFER_HEIGHT, BUFFER_WIDTH};
use vga_text::writer::Writer;

fn yellow_on_black() -> ColorCode {
    ColorCode::new(Color::Yellow, Color::Black)
}

fn blank(cc: ColorCode) -> ScreenChar {
    ScreenChar { ascii_character: b' ', color_code: cc }
}

#[test]
fn new_writer_is_cleared() {
    let cc = yellow_on_black();
    let w = Writer::new(cc);
    assert_eq!(w.column(), 0);
    for row in 0..BUFFER_HEIGHT {
        for col in 0..BUFFER_WIDTH {
            assert_eq!(w.read_cell(row, col), blank(cc));
        }
    }
}

#[test]
fn printable_byte_advances_column() {
    let cc = yellow_on_black();
    let mut w = Writer::new(cc);
    w.write_byte(b'A');
    assert_eq!(w.column(), 1);
    assert_eq!(
        w.read_cell(BUFFER_HEIGHT - 1, 0),
        ScreenChar { ascii_character: b'A', color_code: cc }
    );
    // every row above the last is untouched
    for row in 0..BUFFER_HEIGHT - 1 {
        for col in 0..BUFFER_WIDTH {
            assert_eq!(w.read_cell(row, col), blank(cc));
        }
    }
}

#[test]
fn newline_writes_nothing_and_resets_column() {
    let cc = yellow_on_black();
    let mut w = Writer::new(cc);
    w.write_byte(b'A');
    w.write_byte(b'\n');
    assert_eq!(w.column(), 0);
    // the byte moved up; the last row is blank again
    assert_eq!(
        w.read_cell(BUFFER_HEIGHT - 2, 0),
        ScreenChar { ascii_character: b'A', color_code: cc }
    );
    for col in 0..BUFFER_WIDTH {
        assert_eq!(w.read_cell(BUFFER_HEIGHT - 1, col), blank(cc));
    }
}

#[test]
fn eighty_bytes_fill_the_row_and_the_81st_wraps() {
    let cc = yellow_on_black();
    let mut w = Writer::new(cc);
    for _ in 0..BUFFER_WIDTH {
        w.write_byte(b'X');
    }
    assert_eq!(w.column(), BUFFER_WIDTH);
    for col in 0..BUFFER_WIDTH {
        assert_eq!(
            w.read_cell(BUFFER_HEIGHT - 1, col),
            ScreenChar { ascii_character: b'X', color_code: cc }
        );
    }
    // the 81st byte forces exactly one line advance and lands at column 0
    w.write_byte(b'Y');
    assert_eq!(w.column(), 1);
    assert_eq!(
        w.read_cell(BUFFER_HEIGHT - 1, 0),
        ScreenChar { ascii_character: b'Y', color_code: cc }
    );
    for col in 0..BUFFER_WIDTH {
        assert_eq!(
            w.read_cell(BUFFER_HEIGHT - 2, col),
            ScreenChar { ascii_character: b'X', color_code: cc }
        );
    }
    for col in 1..BUFFER_WIDTH {
        assert_eq!(w.read_cell(BUFFER_HEIGHT - 1, col), blank(cc));
    }
}

#[test]
fn scroll_moves_every_row_up_and_blanks_the_last() {
    let cc = yellow_on_black();
    let mut w = Writer::new(cc);
    w.write_byte(b'A');
    w.write_byte(b'\n');
    w.write_byte(b'B');
    w.write_byte(b'\n');
    assert_eq!(
        w.read_cell(BUFFER_HEIGHT - 3, 0),
        ScreenChar { ascii_character: b'A', color_code: cc }
    );
    assert_eq!(
        w.read_cell(BUFFER_HEIGHT - 2, 0),
        ScreenChar { ascii_character: b'B', color_code: cc }
    );
    for col in 0..BUFFER_WIDTH {
        assert_eq!(w.read_cell(BUFFER_HEIGHT - 1, col), blank(cc));
    }
}

#[test]
fn scroll_copies_the_full_row_width() {
    // content past the first 25 columns must survive a line advance too
    let cc = yellow_on_black();
    let mut w = Writer::new(cc);
    for _ in 0..30 {
        w.write_byte(b'Z');
    }
    w.write_byte(b'\n');
    for col in 0..30 {
        assert_eq!(
            w.read_cell(BUFFER_HEIGHT - 2, col),
            ScreenChar { ascii_character: b'Z', color_code: cc }
        );
    }
    assert_eq!(w.read_cell(BUFFER_HEIGHT - 2, 30), blank(cc));
}

#[test]
fn control_byte_becomes_substitute_glyph() {
    let cc = yellow_on_black();
    let mut w = Writer::new(cc);
    w.write_string("\x01");
    assert_eq!(
        w.read_cell(BUFFER_HEIGHT - 1, 0),
        ScreenChar { ascii_character: 0xfe, color_code: cc }
    );
    assert_eq!(w.column(), 1);
}

#[test]
fn non_ascii_text_becomes_substitute_glyphs() {
    let cc = yellow_on_black();
    let mut w = Writer::new(cc);
    // two-byte UTF-8 sequence: both bytes are outside the printable range
    w.write_string("\u{e9}");
    assert_eq!(w.column(), 2);
    for col in 0..2 {
        assert_eq!(
            w.read_cell(BUFFER_HEIGHT - 1, col),
            ScreenChar { ascii_character: 0xfe, color_code: cc }
        );
    }
}

#[test]
fn round_trip_keeps_bytes_and_their_colors() {
    let cc1 = yellow_on_black();
    let cc2 = ColorCode::new(Color::White, Color::Blue);
    let mut w = Writer::new(cc1);
    w.write_string("AB");
    w.set_color(cc2);
    w.write_string("CDE");
    assert_eq!(w.column(), 5);
    let expect = [
        (b'A', cc1),
        (b'B', cc1),
        (b'C', cc2),
        (b'D', cc2),
        (b'E', cc2),
    ];
    for (col, (byte, cc)) in expect.iter().enumerate() {
        assert_eq!(
            w.read_cell(BUFFER_HEIGHT - 1, col),
            ScreenChar { ascii_character: *byte, color_code: *cc }
        );
    }
}

#[test]
fn two_lines_scenario() {
    let cc = yellow_on_black();
    let mut w = Writer::new(cc);
    w.write_string("AB\nC");
    assert_eq!(w.column(), 1);
    // last row: "C" followed by blanks
    assert_eq!(
        w.read_cell(BUFFER_HEIGHT - 1, 0),
        ScreenChar { ascii_character: b'C', color_code: cc }
    );
    for col in 1..BUFFER_WIDTH {
        assert_eq!(w.read_cell(BUFFER_HEIGHT - 1, col), blank(cc));
    }
    // the row above: "AB" followed by blanks
    assert_eq!(
        w.read_cell(BUFFER_HEIGHT - 2, 0),
        ScreenChar { ascii_character: b'A', color_code: cc }
    );
    assert_eq!(
        w.read_cell(BUFFER_HEIGHT - 2, 1),
        ScreenChar { ascii_character: b'B', color_code: cc }
    );
    for col in 2..BUFFER_WIDTH {
        assert_eq!(w.read_cell(BUFFER_HEIGHT - 2, col), blank(cc));
    }
}

#[test]
fn scrolled_away_content_is_gone() {
    let cc = yellow_on_black();
    let mut w = Writer::new(cc);
    w.write_string("TOP\n");
    // push the marked line off the top of the grid
    for _ in 0..BUFFER_HEIGHT {
        w.write_string("\n");
    }
    for row in 0..BUFFER_HEIGHT {
        for col in 0..BUFFER_WIDTH {
            assert_eq!(w.read_cell(row, col), blank(cc));
        }
    }
}
