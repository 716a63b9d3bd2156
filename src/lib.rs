//! Driver logic for a 2.13" three-colour e-paper panel (122 x 250 pixels,
//! achromatic and chromatic RAM planes).
//!
//! Every driver operation is expressed as the exact, ordered list of bus
//! transactions the panel controller must receive. The transactions are
//! collected in a [`Bus`] queue, whose contents are specified in each
//! operation's contract; an executor outside this crate plays the queue on
//! real hardware, stopping at the first transaction that fails.
pub mod bus;
pub mod chunk;
pub mod color;
pub mod command;
pub mod epd;
pub mod geometry;

pub use bus::{Bus, BusEvent, BusOp};
pub use chunk::{Chunk, ChunkBuffer, ChunkFill, chromatic_pixel};
pub use color::{Color, TriColor};
pub use epd::{DEFAULT_BACKGROUND_COLOR, Epd2in13b, EpdError, IS_BUSY_LOW, RefreshLut};
pub use geometry::{BUFFER, CHUNK_HEIGHT, CHUNK_LEN, HEIGHT, PLANE_LEN, WIDTH, buffer_len};
pub mod stream;

pub use stream::{BandPass, GeneratedPass, Plane};
