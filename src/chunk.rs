//! The four horizontal bands of the low-memory transfer, and the scratch
//! buffer a caller draws one band into.
use vstd::prelude::*;
use crate::color::{Color, TriColor, color_byte};
use crate::geometry::{CHUNK_HEIGHT, CHUNK_LEN, WIDTH};

verus! {

/// One of the four bands of the panel, top to bottom.
#[derive(Clone, Copy, Debug, PartialEq, Eq, Structural)]
pub enum Chunk {
    /// the first band
    Buf1,
    /// the second band
    Buf2,
    /// the third band
    Buf3,
    /// the fourth band
    Buf4,
}

/// Zero-based position of a band.
pub open spec fn chunk_index(c: Chunk) -> nat {
    match c {
        Chunk::Buf1 => 0,
        Chunk::Buf2 => 1,
        Chunk::Buf3 => 2,
        Chunk::Buf4 => 3,
    }
}

/// The band at a zero-based position below four.
pub open spec fn chunk_at(i: nat) -> Chunk
    recommends
        i < 4,
{
    if i == 0 {
        Chunk::Buf1
    } else if i == 1 {
        Chunk::Buf2
    } else if i == 2 {
        Chunk::Buf3
    } else {
        Chunk::Buf4
    }
}

impl Chunk {
    /// Zero-based position of the band.
    pub fn to_zero_indexed(&self) -> (r: u32)
        ensures
            r == chunk_index(*self),
    {
        match self {
            Chunk::Buf1 => 0,
            Chunk::Buf2 => 1,
            Chunk::Buf3 => 2,
            Chunk::Buf4 => 3,
        }
    }

    /// The band at zero-based position `i`; there are four bands.
    pub fn from_zero_indexed(i: u32) -> (r: Self)
        requires
            i < 4,
        ensures
            r == chunk_at(i as nat),
            chunk_index(r) == i,
    {
        match i {
            0 => Chunk::Buf1,
            1 => Chunk::Buf2,
            2 => Chunk::Buf3,
            _ => Chunk::Buf4,
        }
    }
}

/// Converting a band to its position and back yields the band, and every
/// position below four is the position of its band.
pub proof fn lemma_chunk_round_trip(c: Chunk, i: nat)
    ensures
        chunk_at(chunk_index(c)) == c,
        chunk_index(c) < 4,
        i < 4 ==> chunk_index(chunk_at(i)) == i,
{
}

/// What a band callback did with the scratch buffer it was handed.
#[derive(Clone, Copy, Debug, PartialEq, Eq, Structural)]
pub enum ChunkFill {
    /// The callback drew the band; its bytes are sent as they are.
    Populated,
    /// The callback left the band alone; the driver fills it with the
    /// plane's blank colour before sending it.
    LeaveDefault,
}

/// Scratch buffer for one band: `WIDTH` x `CHUNK_HEIGHT` pixels, one bit per
/// pixel, rows packed into whole bytes, most significant bit leftmost; a set
/// bit is `Color::White`.
pub struct ChunkBuffer {
    bytes: [u8; CHUNK_LEN],
}

/// Byte offset of pixel (x, y) in a band buffer.
pub open spec fn pixel_offset(x: nat, y: nat) -> nat {
    y * 16 + x / 8
}

/// Bit of the pixel inside its byte, leftmost pixel in bit 7.
pub open spec fn pixel_mask(x: nat) -> u8 {
    (0x80u8 >> ((x % 8) as u8)) as u8
}

/// `b` with the bits of `mask` set for white and cleared for black.
pub open spec fn paint(b: u8, mask: u8, c: Color) -> u8 {
    match c {
        Color::White => b | mask,
        Color::Black => b & !mask,
    }
}

/// Whether (x, y) is a pixel of a band.
pub open spec fn in_band(x: u32, y: u32) -> bool {
    x < WIDTH && y < CHUNK_HEIGHT
}

impl View for ChunkBuffer {
    type V = Seq<u8>;

    closed spec fn view(&self) -> Seq<u8> {
        self.bytes@
    }
}

impl ChunkBuffer {
    /// Every band buffer holds `CHUNK_LEN` bytes.
    pub proof fn lemma_len(b: ChunkBuffer)
        ensures
            b@.len() == CHUNK_LEN,
    {
    }

    /// A band buffer with every pixel white.
    pub fn new() -> (r: ChunkBuffer)
        ensures
            r@ == Seq::new(CHUNK_LEN as nat, |i: int| 0xFFu8),
    {
        let r = ChunkBuffer { bytes: [0xFFu8; CHUNK_LEN] };
        assert(r@ =~= Seq::new(CHUNK_LEN as nat, |i: int| 0xFFu8));
        r
    }

    /// Sets every pixel to `color`.
    pub fn clear(&mut self, color: Color)
        ensures
            final(self)@ == Seq::new(CHUNK_LEN as nat, |i: int| color_byte(color)),
    {
        let b = color.get_byte_value();
        self.bytes = [b; CHUNK_LEN];
        assert(self@ =~= Seq::new(CHUNK_LEN as nat, |i: int| color_byte(color)));
    }

    /// Sets pixel (x, y) to `color`; a pixel outside the band is ignored.
    pub fn set_pixel(&mut self, x: u32, y: u32, color: Color)
        ensures
            in_band(x, y) ==> final(self)@ == old(self)@.update(
                pixel_offset(x as nat, y as nat) as int,
                paint(
                    old(self)@[pixel_offset(x as nat, y as nat) as int],
                    pixel_mask(x as nat),
                    color,
                ),
            ),
            !in_band(x, y) ==> final(self)@ == old(self)@,
    {
        if x < WIDTH && y < CHUNK_HEIGHT {
            let idx: usize = (y as usize) * 16 + (x as usize) / 8;
            let mask: u8 = 0x80u8 >> ((x % 8) as u8);
            let old_b = self.bytes[idx];
            let new_b: u8 = match color {
                Color::White => old_b | mask,
                Color::Black => old_b & !mask,
            };
            self.bytes[idx] = new_b;
        }
    }

    /// The colour of pixel (x, y), which lies inside the band.
    pub fn pixel(&self, x: u32, y: u32) -> (r: Color)
        requires
            in_band(x, y),
        ensures
            r == (if self@[pixel_offset(x as nat, y as nat) as int] & pixel_mask(x as nat) == 0 {
                Color::Black
            } else {
                Color::White
            }),
    {
        let idx: usize = (y as usize) * 16 + (x as usize) / 8;
        let mask: u8 = 0x80u8 >> ((x % 8) as u8);
        if self.bytes[idx] & mask == 0 {
            Color::Black
        } else {
            Color::White
        }
    }

    /// The packed bytes of the band.
    pub fn buffer(&self) -> (r: &[u8])
        ensures
            r@ == self@,
            r@.len() == CHUNK_LEN,
    {
        self.bytes.as_slice()
    }
}

/// Colour to draw into a band buffer of the chromatic pass for a pixel of
/// the panel: the controller reads a set bit of that plane as chromatic ink,
/// so `Color::White` stands for chromatic and `Color::Black` for no ink.
pub open spec fn spec_chromatic_pixel(c: TriColor) -> Color {
    match c {
        TriColor::Chromatic => Color::White,
        _ => Color::Black,
    }
}

/// Colour to draw into a band buffer of the chromatic pass; see
/// [`spec_chromatic_pixel`].
pub fn chromatic_pixel(c: TriColor) -> (r: Color)
    ensures
        r == spec_chromatic_pixel(c),
{
    match c {
        TriColor::Chromatic => Color::White,
        _ => Color::Black,
    }
}

} // verus!
