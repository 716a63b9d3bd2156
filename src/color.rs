use vstd::prelude::*;

verus! {

/// Two-valued pixel colour used inside the chunk scratch buffers.
#[derive(Clone, Copy, Debug, PartialEq, Eq, Structural)]
pub enum Color {
    Black,
    White,
}

/// Three-valued pixel colour of the full panel.
#[derive(Clone, Copy, Debug, PartialEq, Eq, Structural)]
pub enum TriColor {
    Black,
    White,
    Chromatic,
}

/// Byte that fills eight pixels of one colour in a packed 1-bit buffer.
pub open spec fn color_byte(c: Color) -> u8 {
    match c {
        Color::Black => 0x00,
        Color::White => 0xFF,
    }
}

/// Byte that a plane is filled with for a three-valued colour.
pub open spec fn tricolor_byte(c: TriColor) -> u8 {
    match c {
        TriColor::Black => 0x00,
        TriColor::White => 0xFF,
        TriColor::Chromatic => 0xFF,
    }
}

impl Color {
    /// The byte that holds eight pixels of this colour.
    pub fn get_byte_value(&self) -> (r: u8)
        ensures
            r == color_byte(*self),
    {
        match self {
            Color::Black => 0x00,
            Color::White => 0xFF,
        }
    }
}

impl TriColor {
    /// The byte that holds eight pixels of this colour.
    pub fn get_byte_value(&self) -> (r: u8)
        ensures
            r == tricolor_byte(*self),
    {
        match self {
            TriColor::Black => 0x00,
            TriColor::White => 0xFF,
            TriColor::Chromatic => 0xFF,
        }
    }
}

} // verus!
