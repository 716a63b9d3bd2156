//! Step-by-step transfers for callers that cannot hold a whole plane: each
//! step queues a bounded piece of the transfer, which the caller sends
//! before it takes the next step.
use vstd::prelude::*;
use crate::bus::{Bus, BusEvent, BusOp};
use crate::chunk::{Chunk, ChunkBuffer, ChunkFill, chunk_at};
use crate::color::{Color, color_byte};
use crate::command::Command;
use crate::epd::{IS_BUSY_LOW, display_events, ev_cmd};
use crate::geometry::{BUFFER, CHUNK_LEN};

verus! {

/// The RAM plane a transfer writes.
#[derive(Clone, Copy, Debug, PartialEq, Eq, Structural)]
pub enum Plane {
    /// The black/white plane.
    Achromatic,
    /// The chromatic-ink plane, which takes precedence on the panel.
    Chromatic,
}

/// The command that selects a plane for writing.
pub open spec fn plane_command(p: Plane) -> Command {
    match p {
        Plane::Achromatic => Command::WriteRam,
        Plane::Chromatic => Command::WriteRamRed,
    }
}

/// Colour a band is filled with when its callback leaves it alone: white
/// on the achromatic plane, no ink (black) on the chromatic plane.
pub open spec fn blank_color(p: Plane) -> Color {
    match p {
        Plane::Achromatic => Color::White,
        Plane::Chromatic => Color::Black,
    }
}

/// The bytes sent for a band of plane `p`, given what the band callback
/// returned and the buffer as it left it.
pub open spec fn band_payload(p: Plane, fill: ChunkFill, drawn: Seq<u8>) -> Seq<u8> {
    if fill == ChunkFill::LeaveDefault {
        Seq::new(CHUNK_LEN as nat, |k: int| color_byte(blank_color(p)))
    } else {
        drawn
    }
}

/// What ends a band pass: the chromatic pass activates the refresh and
/// waits for it; the achromatic pass queues nothing.
pub open spec fn finish_events(p: Plane) -> Seq<BusEvent> {
    match p {
        Plane::Achromatic => Seq::empty(),
        Plane::Chromatic => display_events(),
    }
}

/// `d` holds the bytes that `f` generates for the indices `start` up to
/// `start + d.len()`, in order.
pub open spec fn generated_from<F: Fn(usize) -> u8>(f: F, start: nat, d: Seq<u8>) -> bool {
    forall|k: int| 0 <= k < d.len() ==> #[trigger] f.ensures(((start + k) as usize,), d[k])
}

/// Every index from `start` below `end` is a valid argument of `f`.
pub open spec fn callable_between<F: Fn(usize) -> u8>(f: F, start: nat, end: nat) -> bool {
    forall|i: usize| start <= i < end ==> #[trigger] f.requires((i,))
}

/// The bytes that `f` generates for the indices `start` to `end - 1`.
pub fn generate_range(f: impl Fn(usize) -> u8, start: usize, end: usize) -> (d: Vec<u8>)
    requires
        start <= end,
        callable_between(f, start as nat, end as nat),
    ensures
        d@.len() == end - start,
        generated_from(f, start as nat, d@),
{
    let mut d: Vec<u8> = Vec::new();
    let mut i: usize = start;
    while i < end
        invariant
            callable_between(f, start as nat, end as nat),
            start <= i <= end,
            d@.len() == i - start,
            forall|k: int| 0 <= k < d@.len() ==> #[trigger] f.ensures(((start + k) as usize,), d@[k]),
        decreases end - i,
    {
        let b = f(i);
        d.push(b);
        assert(d@[i - start] == b);
        i = i + 1;
    }
    d
}

/// A band-by-band transfer of one plane. Start it, then while
/// [`next_chunk`](Self::next_chunk) names a band, draw that band into a
/// scratch buffer and hand it to [`send_band`](Self::send_band); end with
/// [`finish`](Self::finish). Each step queues at most one band.
pub struct BandPass {
    plane: Plane,
    sent: u32,
}

impl BandPass {
    /// The plane this pass writes.
    pub closed spec fn spec_plane(&self) -> Plane {
        self.plane
    }

    /// How many bands have been sent.
    pub closed spec fn spec_sent(&self) -> nat {
        self.sent as nat
    }

    /// Queues the selection of `plane` and starts a pass over its bands.
    pub fn start(plane: Plane, bus: &mut Bus) -> (r: BandPass)
        ensures
            r.spec_plane() == plane,
            r.spec_sent() == 0,
            final(bus)@ == old(bus)@.push(ev_cmd(plane_command(plane))),
    {
        let command = match plane {
            Plane::Achromatic => Command::WriteRam,
            Plane::Chromatic => Command::WriteRamRed,
        };
        bus.push(BusOp::Command(command.address()));
        BandPass { plane, sent: 0 }
    }

    /// The band to draw next, top to bottom, or `None` once all four are
    /// sent.
    pub fn next_chunk(&self) -> (r: Option<Chunk>)
        ensures
            self.spec_sent() < BUFFER ==> r == Some(chunk_at(self.spec_sent())),
            self.spec_sent() >= BUFFER ==> r is None,
    {
        if self.sent < BUFFER {
            Some(Chunk::from_zero_indexed(self.sent))
        } else {
            None
        }
    }

    /// Queues the band named by `next_chunk`: `buffer` as drawn, or, where
    /// `fill` leaves the band alone, `buffer` filled with the pass's blank
    /// colour first.
    pub fn send_band(&mut self, bus: &mut Bus, buffer: &mut ChunkBuffer, fill: ChunkFill)
        requires
            old(self).spec_sent() < BUFFER,
        ensures
            final(self).spec_plane() == old(self).spec_plane(),
            final(self).spec_sent() == old(self).spec_sent() + 1,
            old(buffer)@.len() == CHUNK_LEN,
            final(buffer)@ == band_payload(old(self).spec_plane(), fill, old(buffer)@),
            final(bus)@ == old(bus)@.push(
                BusEvent::Data(band_payload(old(self).spec_plane(), fill, old(buffer)@)),
            ),
    {
        proof {
            ChunkBuffer::lemma_len(*buffer);
        }
        if fill == ChunkFill::LeaveDefault {
            let blank = match self.plane {
                Plane::Achromatic => Color::White,
                Plane::Chromatic => Color::Black,
            };
            buffer.clear(blank);
        }
        bus.push(BusOp::Data(vstd::slice::slice_to_vec(buffer.buffer())));
        self.sent = self.sent + 1;
    }

    /// Ends the pass once all bands are sent, queueing the activation and
    /// its wait after the chromatic plane.
    pub fn finish(self, bus: &mut Bus)
        requires
            self.spec_sent() == BUFFER,
        ensures
            final(bus)@ == old(bus)@ + finish_events(self.spec_plane()),
    {
        let ghost b0 = bus@;
        match self.plane {
            Plane::Achromatic => {},
            Plane::Chromatic => {
                bus.push(BusOp::Command(Command::MasterActivation.address()));
                bus.push(BusOp::WaitIdle { busy_low: IS_BUSY_LOW });
            },
        }
        assert(bus@ =~= b0 + finish_events(self.plane));
    }
}

/// A plane sent from a byte generator a bounded slice at a time. Start it,
/// then while it is not done call [`send_next`](Self::send_next) and send
/// what it queued before calling it again.
pub struct GeneratedPass {
    len: usize,
    sent: usize,
}

impl GeneratedPass {
    /// Bytes the plane is made of.
    pub closed spec fn spec_len(&self) -> nat {
        self.len as nat
    }

    /// Bytes queued so far.
    pub closed spec fn spec_sent(&self) -> nat {
        self.sent as nat
    }

    /// Queues the selection of `plane` and starts a transfer of `len` bytes.
    pub fn start(plane: Plane, len: usize, bus: &mut Bus) -> (r: GeneratedPass)
        ensures
            r.spec_len() == len,
            r.spec_sent() == 0,
            final(bus)@ == old(bus)@.push(ev_cmd(plane_command(plane))),
    {
        let command = match plane {
            Plane::Achromatic => Command::WriteRam,
            Plane::Chromatic => Command::WriteRamRed,
        };
        bus.push(BusOp::Command(command.address()));
        GeneratedPass { len, sent: 0 }
    }

    /// Whether every byte has been queued.
    pub fn is_done(&self) -> (r: bool)
        ensures
            r == (self.spec_sent() >= self.spec_len()),
    {
        self.sent >= self.len
    }

    /// Queues the next slice of at most `max` bytes: those that `f`
    /// generates for the indices from the first one not yet sent.
    pub fn send_next(&mut self, bus: &mut Bus, f: impl Fn(usize) -> u8, max: usize)
        requires
            max > 0,
            old(self).spec_sent() < old(self).spec_len(),
            callable_between(f, old(self).spec_sent(), old(self).spec_len()),
        ensures
            final(self).spec_len() == old(self).spec_len(),
            final(self).spec_sent() == (if old(self).spec_len() - old(self).spec_sent() <= max {
                old(self).spec_len() as int
            } else {
                old(self).spec_sent() + max
            }),
            final(bus)@.len() == old(bus)@.len() + 1,
            final(bus)@.take(old(bus)@.len() as int) == old(bus)@,
            final(bus)@.last() is Data,
            final(bus)@.last()->Data_0.len() == final(self).spec_sent() - old(self).spec_sent(),
            generated_from(f, old(self).spec_sent(), final(bus)@.last()->Data_0),
    {
        let end: usize = if self.len - self.sent <= max {
            self.len
        } else {
            self.sent + max
        };
        let d = generate_range(f, self.sent, end);
        let ghost b0 = bus@;
        bus.push(BusOp::Data(d));
        assert(bus@.take(b0.len() as int) =~= b0);
        self.sent = end;
    }
}

} // verus!
