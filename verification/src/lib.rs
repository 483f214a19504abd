//! A driver for a fixed-size character-mode text display.
//!
//! Text is rendered into a 25 x 80 grid of two-byte cells (an ASCII byte and
//! a packed colour byte). A writer owns the grid, tracks a cursor on the last
//! row, wraps long lines, scrolls on newline, and substitutes a fixed glyph
//! for bytes the display cannot show. Every cell access goes through a
//! volatile read or write, as the display memory has side effects the
//! compiler cannot see.

pub mod cell;
pub mod color;
pub mod grid;
pub mod laws;
pub mod volatile_cell;
pub mod writer;

pub use cell::ScreenChar;
pub use color::{Color, ColorCode};
pub use grid::{Buffer, BUFFER_HEIGHT, BUFFER_WIDTH};
pub use writer::Writer;
