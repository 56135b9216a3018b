//! The transport task's decisions: a state machine fed with what the link,
//! the clock and the queue report, and answering with the next thing to do.
//!
//! A write that fails for a reason other than a disabled link skips that one
//! packet; the drain goes on with the next.
use vstd::prelude::*;

verus! {

/// Interval between two looks at the host-ready indicator, in milliseconds.
pub const POLL_INTERVAL_MS: u64 = 500;

/// How long to let frames accumulate after a wake before draining, in
/// milliseconds.
pub const SETTLE_MS: u64 = 100;

/// Where the transport task stands.
#[derive(Debug, Clone, Copy, PartialEq, Eq, Structural)]
pub enum Phase {
    /// Waiting for the link.
    Disconnected,
    /// Waiting for the host-ready indicator.
    WaitReady,
    /// Waiting for a wake from the producers.
    WaitData,
    /// Letting near-simultaneous frames accumulate.
    Settling,
    /// Waiting for the buffer's contents.
    Taking,
    /// Sending the taken bytes packet by packet.
    Draining,
}

/// How a packet write ended.
#[derive(Debug, Clone, Copy, PartialEq, Eq, Structural)]
pub enum WriteOutcome {
    Sent,
    /// The link was disabled or disconnected.
    Disabled,
    /// Any other failure.
    Failed,
}

/// What the surroundings report to the transport task.
#[derive(Debug, PartialEq, Eq)]
pub enum Event {
    /// The link is established.
    Connected,
    /// The host-ready indicator was read.
    HostReady(bool),
    /// The wake signal fired.
    Woken,
    /// The settle interval is over.
    SettleElapsed,
    /// The buffer's contents were taken.
    Taken(Vec<u8>),
    /// A packet write ended.
    Written(WriteOutcome),
}

/// What the transport task is to do next.
#[derive(Debug, PartialEq, Eq)]
pub enum Action {
    /// Wait until the link is established, then report `Connected`.
    WaitConnection,
    /// Wait `delay_ms`, read the host-ready indicator, report `HostReady`.
    CheckHostReady { delay_ms: u64 },
    /// Wait for the wake signal, then report `Woken`.
    WaitSignal,
    /// Wait `ms`, then report `SettleElapsed`.
    Sleep { ms: u64 },
    /// Clear the wake signal, take the buffer's contents, report `Taken`.
    Drain,
    /// Write one packet, then report `Written`.
    WritePacket(Vec<u8>),
}

/// The end of the packet that starts at `start` in `len` bytes cut into
/// packets of `chunk` bytes.
pub open spec fn packet_end(start: nat, chunk: nat, len: nat) -> nat {
    if start + chunk <= len {
        start + chunk
    } else {
        len
    }
}

/// The packets that a drain of `data` sends from offset `start` on, when
/// every write goes through: consecutive slices of `chunk` bytes, the last
/// one possibly shorter.
pub open spec fn packets_from(data: Seq<u8>, start: nat, chunk: nat) -> Seq<Seq<u8>>
    decreases data.len() - start,
{
    if chunk == 0 || start >= data.len() {
        Seq::empty()
    } else {
        let end = packet_end(start, chunk, data.len());
        seq![data.subrange(start as int, end as int)] + packets_from(data, end, chunk)
    }
}

/// A drain loses nothing and reorders nothing: its packets, laid end to end,
/// are the drained bytes; each holds between one and `chunk` bytes, and all
/// but the last exactly `chunk`.
pub proof fn lemma_packets_cover(data: Seq<u8>, start: nat, chunk: nat)
    requires
        chunk > 0,
        start <= data.len(),
    ensures
        packets_from(data, start, chunk).flatten() == data.subrange(start as int, data.len() as int),
        forall|i: int| 0 <= i < packets_from(data, start, chunk).len() ==>
            1 <= #[trigger] packets_from(data, start, chunk)[i].len() <= chunk,
        forall|i: int| 0 <= i < packets_from(data, start, chunk).len() - 1 ==>
            #[trigger] packets_from(data, start, chunk)[i].len() == chunk,
    decreases data.len() - start,
{
    let ps = packets_from(data, start, chunk);
    if start < data.len() {
        let end = packet_end(start, chunk, data.len());
        let head = data.subrange(start as int, end as int);
        let rest = packets_from(data, end, chunk);
        lemma_packets_cover(data, end, chunk);
        assert(ps.drop_first() =~= rest);
        assert(ps.first() == head);
        assert(data.subrange(start as int, data.len() as int) =~= head + data.subrange(end as int, data.len() as int));
        assert forall|i: int| 0 <= i < ps.len() implies 1 <= #[trigger] ps[i].len() <= chunk by {
            if i > 0 {
                assert(ps[i] == rest[i - 1]);
            }
        }
        assert forall|i: int| 0 <= i < ps.len() - 1 implies #[trigger] ps[i].len() == chunk by {
            if i > 0 {
                assert(ps[i] == rest[i - 1]);
            } else if end == data.len() {
                assert(rest.len() == 0);
            }
        }
    } else {
        assert(data.subrange(start as int, data.len() as int) =~= Seq::<u8>::empty());
    }
}

/// The phase a cycle starts in: the host-ready wait when it is enabled.
pub open spec fn cycle_start(use_dtr: bool) -> Phase {
    if use_dtr {
        Phase::WaitReady
    } else {
        Phase::WaitData
    }
}

/// The action that opens a cycle.
pub open spec fn cycle_action(use_dtr: bool) -> Action {
    if use_dtr {
        Action::CheckHostReady { delay_ms: 0 }
    } else {
        Action::WaitSignal
    }
}

/// Whether `a` writes exactly the bytes `p`.
pub open spec fn writes(a: Action, p: Seq<u8>) -> bool {
    a matches Action::WritePacket(v) && v@ == p
}

/// Whether `e` is what a task in phase `p` waits for; other events are
/// ignored.
pub open spec fn accepts(p: Phase, e: Event) -> bool {
    match p {
        Phase::Disconnected => e is Connected,
        Phase::WaitReady => e is HostReady,
        Phase::WaitData => e is Woken,
        Phase::Settling => e is SettleElapsed,
        Phase::Taking => e is Taken,
        Phase::Draining => e is Written,
    }
}

/// The transport task's state.
pub struct Transport {
    phase: Phase,
    use_dtr: bool,
    chunk_size: usize,
    data: Vec<u8>,
    start: usize,
    end: usize,
}

impl Transport {
    pub closed spec fn phase(&self) -> Phase {
        self.phase
    }

    pub closed spec fn use_dtr(&self) -> bool {
        self.use_dtr
    }

    pub closed spec fn chunk_size(&self) -> nat {
        self.chunk_size as nat
    }

    /// The bytes of the drain in progress.
    pub closed spec fn data(&self) -> Seq<u8> {
        self.data@
    }

    /// Where the packet in flight starts and ends in `data`.
    pub closed spec fn start(&self) -> nat {
        self.start as nat
    }

    pub closed spec fn end(&self) -> nat {
        self.end as nat
    }

    pub open spec fn wf(&self) -> bool {
        &&& self.chunk_size() > 0
        &&& self.phase() == Phase::Draining ==> {
            &&& self.start() < self.end()
            &&& self.end() == packet_end(self.start(), self.chunk_size(), self.data().len())
        }
        &&& self.phase() != Phase::Draining ==> self.data().len() == 0
    }

    /// The packet in flight.
    pub open spec fn packet(&self) -> Seq<u8> {
        self.data().subrange(self.start() as int, self.end() as int)
    }

    /// Whether `r` is what a task in this state is to do.
    pub open spec fn awaits(&self, r: Action) -> bool {
        match self.phase() {
            Phase::Disconnected => r == Action::WaitConnection,
            Phase::WaitReady => r == (Action::CheckHostReady { delay_ms: 0 }),
            Phase::WaitData => r == Action::WaitSignal,
            Phase::Settling => r == (Action::Sleep { ms: SETTLE_MS }),
            Phase::Taking => r == Action::Drain,
            Phase::Draining => writes(r, self.packet()),
        }
    }

    /// A task that has yet to see the link; packets hold at most
    /// `chunk_size` bytes.
    pub fn new(chunk_size: usize, use_dtr: bool) -> (r: Transport)
        requires
            chunk_size > 0,
        ensures
            r.wf(),
            r.phase() == Phase::Disconnected,
            r.use_dtr() == use_dtr,
            r.chunk_size() == chunk_size,
    {
        Transport { phase: Phase::Disconnected, use_dtr, chunk_size, data: Vec::new(), start: 0, end: 0 }
    }

    /// Where the task stands.
    pub fn current_phase(&self) -> (r: Phase)
        ensures
            r == self.phase(),
    {
        self.phase
    }

    /// What the task is to do in its present phase.
    pub fn pending_action(&self) -> (r: Action)
        requires
            self.wf(),
        ensures
            self.awaits(r),
    {
        match self.phase {
            Phase::Disconnected => Action::WaitConnection,
            Phase::WaitReady => Action::CheckHostReady { delay_ms: 0 },
            Phase::WaitData => Action::WaitSignal,
            Phase::Settling => Action::Sleep { ms: SETTLE_MS },
            Phase::Taking => Action::Drain,
            Phase::Draining => {
                let p = vstd::slice::slice_subrange(self.data.as_slice(), self.start, self.end);
                Action::WritePacket(vstd::slice::slice_to_vec(p))
            },
        }
    }

    /// Starts a new cycle: the host-ready wait when enabled, else the wait
    /// for data.
    fn begin_cycle(&mut self) -> (r: Action)
        requires
            old(self).wf(),
        ensures
            final(self).wf(),
            final(self).phase() == cycle_start(old(self).use_dtr()),
            final(self).data().len() == 0,
            final(self).use_dtr() == old(self).use_dtr(),
            final(self).chunk_size() == old(self).chunk_size(),
            r == cycle_action(old(self).use_dtr()),
    {
        self.data = Vec::new();
        self.start = 0;
        self.end = 0;
        if self.use_dtr {
            self.phase = Phase::WaitReady;
            Action::CheckHostReady { delay_ms: 0 }
        } else {
            self.phase = Phase::WaitData;
            Action::WaitSignal
        }
    }

    /// Puts the packet that starts at `start` in flight and returns it.
    fn send_from(&mut self, start: usize) -> (r: Action)
        requires
            old(self).chunk_size() > 0,
            start < old(self).data().len(),
        ensures
            final(self).wf(),
            final(self).phase() == Phase::Draining,
            final(self).data() == old(self).data(),
            final(self).use_dtr() == old(self).use_dtr(),
            final(self).chunk_size() == old(self).chunk_size(),
            final(self).start() == start,
            final(self).end() == packet_end(start as nat, old(self).chunk_size(), old(self).data().len()),
            writes(r, final(self).packet()),
            final(self).packet() == packets_from(old(self).data(), start as nat, old(self).chunk_size()).first(),
    {
        let len = self.data.len();
        let end: usize = if self.chunk_size <= len - start { start + self.chunk_size } else { len };
        self.phase = Phase::Draining;
        self.start = start;
        self.end = end;
        let p = vstd::slice::slice_subrange(self.data.as_slice(), start, end);
        Action::WritePacket(vstd::slice::slice_to_vec(p))
    }

    /// Takes in what the surroundings report and answers with what to do
    /// next. An event that the present phase does not wait for changes
    /// nothing and the pending action is repeated.
    pub fn step(&mut self, event: Event) -> (r: Action)
        requires
            old(self).wf(),
        ensures
            final(self).wf(),
            final(self).use_dtr() == old(self).use_dtr(),
            final(self).chunk_size() == old(self).chunk_size(),
            !accepts(old(self).phase(), event) ==> *final(self) == *old(self) && old(self).awaits(r),
            // the link is up: a new cycle
            old(self).phase() == Phase::Disconnected && event is Connected ==> {
                &&& final(self).phase() == cycle_start(old(self).use_dtr())
                &&& r == cycle_action(old(self).use_dtr())
            },
            // the host is ready: wait for data; else look again after the interval
            old(self).phase() == Phase::WaitReady && event == Event::HostReady(true) ==> {
                &&& final(self).phase() == Phase::WaitData
                &&& r == Action::WaitSignal
            },
            old(self).phase() == Phase::WaitReady && event == Event::HostReady(false) ==> {
                &&& final(self).phase() == Phase::WaitReady
                &&& r == (Action::CheckHostReady { delay_ms: POLL_INTERVAL_MS })
            },
            // woken: let more frames come in before draining
            old(self).phase() == Phase::WaitData && event is Woken ==> {
                &&& final(self).phase() == Phase::Settling
                &&& r == (Action::Sleep { ms: SETTLE_MS })
            },
            old(self).phase() == Phase::Settling && event is SettleElapsed ==> {
                &&& final(self).phase() == Phase::Taking
                &&& r == Action::Drain
            },
            // nothing taken: a new cycle; else the first packet
            old(self).phase() == Phase::Taking ==> (event matches Event::Taken(v) ==> {
                if v@.len() == 0 {
                    &&& final(self).phase() == cycle_start(old(self).use_dtr())
                    &&& r == cycle_action(old(self).use_dtr())
                } else {
                    &&& final(self).phase() == Phase::Draining
                    &&& final(self).data() == v@
                    &&& final(self).start() == 0
                    &&& writes(r, packets_from(v@, 0, old(self).chunk_size()).first())
                }
            }),
            // a packet ended, sent or failed: the next one, or a new cycle
            old(self).phase() == Phase::Draining && (event == Event::Written(WriteOutcome::Sent)
                || event == Event::Written(WriteOutcome::Failed)) ==> {
                if old(self).end() == old(self).data().len() {
                    &&& final(self).phase() == cycle_start(old(self).use_dtr())
                    &&& final(self).data().len() == 0
                    &&& r == cycle_action(old(self).use_dtr())
                } else {
                    &&& final(self).phase() == Phase::Draining
                    &&& final(self).data() == old(self).data()
                    &&& final(self).start() == old(self).end()
                    &&& writes(r, packets_from(old(self).data(), old(self).end(), old(self).chunk_size()).first())
                }
            },
            // the link went down: the rest of the drain is abandoned
            old(self).phase() == Phase::Draining && event == Event::Written(WriteOutcome::Disabled) ==> {
                &&& final(self).phase() == Phase::Disconnected
                &&& final(self).data().len() == 0
                &&& r == Action::WaitConnection
            },
    {
        match (self.phase, event) {
            (Phase::Disconnected, Event::Connected) => self.begin_cycle(),
            (Phase::WaitReady, Event::HostReady(ready)) => {
                if ready {
                    self.phase = Phase::WaitData;
                    Action::WaitSignal
                } else {
                    Action::CheckHostReady { delay_ms: POLL_INTERVAL_MS }
                }
            },
            (Phase::WaitData, Event::Woken) => {
                self.phase = Phase::Settling;
                Action::Sleep { ms: SETTLE_MS }
            },
            (Phase::Settling, Event::SettleElapsed) => {
                self.phase = Phase::Taking;
                Action::Drain
            },
            (Phase::Taking, Event::Taken(bytes)) => {
                if bytes.len() == 0 {
                    self.begin_cycle()
                } else {
                    self.data = bytes;
                    self.send_from(0)
                }
            },
            (Phase::Draining, Event::Written(outcome)) => {
                match outcome {
                    WriteOutcome::Disabled => {
                        self.data = Vec::new();
                        self.start = 0;
                        self.end = 0;
                        self.phase = Phase::Disconnected;
                        Action::WaitConnection
                    },
                    _ => {
                        if self.end == self.data.len() {
                            self.begin_cycle()
                        } else {
                            let next = self.end;
                            self.send_from(next)
                        }
                    },
                }
            },
            (_, _) => self.pending_action(),
        }
    }
}

} // verus!