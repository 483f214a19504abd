use vga_text::cell::{pack_char, unpack_char, ScreenChar};
use vga_text::color::{Color, ColorCode};

#[test]
fn color_code_packs_background_high_foreground_low() {
    assert_eq!(ColorCode::new(Color::Yellow, Color::Black), ColorCode(0x0e));
    assert_eq!(ColorCode::new(Color::White, Color::Blue), ColorCode(0x1f));
    assert_eq!(ColorCode::new(Color::Black, Color::White), ColorCode(0xf0));
    assert_eq!(ColorCode::new(Color::LightGreen, Color::Red), ColorCode(0x4a));
}

#[test]
fn cell_packs_ascii_low_color_high() {
    let c = ScreenChar { ascii_character: 0x41, color_code: ColorCode(0x0e) };
    assert_eq!(pack_char(c), 0x0e41);
    assert_eq!(unpack_char(0x0e41), c);
}

#[test]
fn cell_packing_round_trips() {
    for ascii in [0u8, 0x20, 0x41, 0x7e, 0xfe, 0xff] {
        for color in [0u8, 0x0e, 0x1f, 0xff] {
            let c = ScreenChar { ascii_character: ascii, color_code: ColorCode(color) };
            assert_eq!(unpack_char(pack_char(c)), c);
        }
    }
}
