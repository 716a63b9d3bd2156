//! The queue of bus transactions that driver operations produce.
use vstd::prelude::*;

verus! {

/// One transaction on the controller's bus.
#[derive(Debug, PartialEq, Eq)]
pub enum BusOp {
    /// Reset pulse: hold the reset line high for `initial_us`, low for
    /// `duration_us`, then release it.
    Reset { initial_us: u32, duration_us: u32 },
    /// One command byte, sent with the data/command line in command mode.
    Command(u8),
    /// Payload bytes, sent in order with the line in data mode.
    Data(Vec<u8>),
    /// The payload byte `value`, sent `count` times.
    DataRepeat { value: u8, count: u32 },
    /// Block until the busy line reports idle; `busy_low` says the line is
    /// active (busy) when low.
    WaitIdle { busy_low: bool },
}

/// Mathematical model of a [`BusOp`].
pub enum BusEvent {
    Reset { initial_us: u32, duration_us: u32 },
    Command(u8),
    Data(Seq<u8>),
    DataRepeat { value: u8, count: u32 },
    WaitIdle { busy_low: bool },
}

impl View for BusOp {
    type V = BusEvent;

    open spec fn view(&self) -> BusEvent {
        match self {
            BusOp::Reset { initial_us, duration_us } => BusEvent::Reset {
                initial_us: *initial_us,
                duration_us: *duration_us,
            },
            BusOp::Command(c) => BusEvent::Command(*c),
            BusOp::Data(d) => BusEvent::Data(d@),
            BusOp::DataRepeat { value, count } => BusEvent::DataRepeat {
                value: *value,
                count: *count,
            },
            BusOp::WaitIdle { busy_low } => BusEvent::WaitIdle { busy_low: *busy_low },
        }
    }
}

/// Ordered queue of bus transactions, oldest first.
pub struct Bus {
    ops: Vec<BusOp>,
}

impl View for Bus {
    type V = Seq<BusEvent>;

    closed spec fn view(&self) -> Seq<BusEvent> {
        self.ops@.map_values(|o: BusOp| o@)
    }
}

impl Bus {
    /// An empty queue.
    pub fn new() -> (r: Bus)
        ensures
            r@ == Seq::<BusEvent>::empty(),
    {
        let r = Bus { ops: Vec::new() };
        assert(r@ =~= Seq::<BusEvent>::empty());
        r
    }

    /// Appends one transaction.
    pub fn push(&mut self, op: BusOp)
        ensures
            final(self)@ == old(self)@.push(op@),
    {
        self.ops.push(op);
        assert(self@ =~= old(self)@.push(op@));
    }

    /// Number of queued transactions.
    pub fn len(&self) -> (r: usize)
        ensures
            r == self@.len(),
    {
        self.ops.len()
    }

    /// The queued transactions, oldest first.
    pub fn ops(&self) -> (r: &[BusOp])
        ensures
            r@.map_values(|o: BusOp| o@) == self@,
    {
        self.ops.as_slice()
    }

    /// The queued transactions, oldest first, consuming the queue.
    pub fn into_ops(self) -> (r: Vec<BusOp>)
        ensures
            r@.map_values(|o: BusOp| o@) == self@,
    {
        self.ops
    }
}

} // verus!
