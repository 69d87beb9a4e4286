//! What a front end draws with and reads from.

use vstd::prelude::*;

verus! {

/// A console color.
#[derive(Copy, Clone, Eq, PartialEq, Hash, Debug, Structural)]
pub enum Color {
    Black,
    White,
    Gray,
    Red,
    Green,
    Yellow,
    Cyan,
    WhiteBright,
}

pub open spec fn color_code(color: Color) -> u8 {
    match color {
        Color::Black => 0,
        Color::White => 7,
        Color::Gray => 8,
        Color::Red => 9,
        Color::Green => 10,
        Color::Yellow => 11,
        Color::Cyan => 14,
        Color::WhiteBright => 15,
    }
}

impl Color {
    /// The color's number in the classic 16-color console palette.
    pub fn code(self) -> (r: u8)
        ensures
            r == color_code(self),
    {
        match self {
            Color::Black => 0,
            Color::White => 7,
            Color::Gray => 8,
            Color::Red => 9,
            Color::Green => 10,
            Color::Yellow => 11,
            Color::Cyan => 14,
            Color::WhiteBright => 15,
        }
    }
}

/// Every color, in the order of their numbers.
pub fn all_colors() -> (r: [Color; 8])
    ensures
        forall|i: int, j: int| 0 <= i < j < 8 ==> color_code(r[i]) < color_code(r[j]),
{
    [
        Color::Black,
        Color::White,
        Color::Gray,
        Color::Red,
        Color::Green,
        Color::Yellow,
        Color::Cyan,
        Color::WhiteBright,
    ]
}

/// A key press, as far as the game cares.
#[derive(Copy, Clone, Debug, Eq, PartialEq, Structural)]
pub enum Input {
    KeyUp,
    KeyDown,
    Enter,
    Other,
    EOF,
}

#[derive(Copy, Clone, Debug)]
pub struct Milliseconds(pub i32);

/// What a front end does for the game.
pub trait Renderer {
    fn clear_screen(&mut self);

    fn flush(&mut self);

    fn move_cursor_to(&mut self, line: i32, column: i32);

    fn get_cursor_position(&mut self) -> (i32, i32);

    fn set_color(&mut self, foreground: Color, background: Color);

    fn write_str(&mut self, string: &str);

    fn getch(&mut self) -> Input;

    fn sleep_ms(&mut self, ms: Milliseconds);
}

} // verus!
