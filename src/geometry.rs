//! Panel geometry.
use vstd::prelude::*;

verus! {

/// Width of the panel in pixels.
pub const WIDTH: u32 = 122;

/// Height of the panel in pixels.
pub const HEIGHT: u32 = 250;

/// Number of horizontal bands the chunked transfer splits the panel into.
pub const BUFFER: u32 = 4;

/// Rows in one band: the height divided by the band count, rounded up.
pub const CHUNK_HEIGHT: u32 = 63;

/// Bytes of one full plane.
pub const PLANE_LEN: usize = 4000;

/// Bytes of one band's scratch buffer.
pub const CHUNK_LEN: usize = 1008;

/// Bytes of a packed 1-bit buffer: each row is rounded up to whole bytes.
pub open spec fn spec_buffer_len(width: nat, height: nat) -> nat {
    ((width + 7) / 8 * height) as nat
}

/// Bytes of a packed 1-bit buffer of `width` x `height` pixels.
pub fn buffer_len(width: usize, height: usize) -> (r: usize)
    requires
        (width + 7) / 8 * height <= usize::MAX,
    ensures
        r == spec_buffer_len(width as nat, height as nat),
{
    proof {
        assert((width + 7) / 8 * height <= usize::MAX);
    }
    let row: usize = width / 8 + if width % 8 == 0 { 0 } else { 1 };
    assert(row == (width + 7) / 8);
    row * height
}

/// The named sizes agree with the geometry.
pub proof fn lemma_geometry()
    ensures
        PLANE_LEN == spec_buffer_len(WIDTH as nat, HEIGHT as nat),
        PLANE_LEN == 4000,
        CHUNK_LEN == spec_buffer_len(WIDTH as nat, CHUNK_HEIGHT as nat),
        CHUNK_HEIGHT as int == (HEIGHT as int + BUFFER as int - 1) / (BUFFER as int),
        CHUNK_LEN as int * BUFFER as int >= PLANE_LEN as int,
{
}

} // verus!
