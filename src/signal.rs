//! The single-slot wake notification between producers and the transport task.
use vstd::prelude::*;

verus! {

/// A coalescing wake flag: any number of notifications before the consumer
/// looks amount to one wake.
pub struct ReadySignal {
    pending: bool,
}

impl View for ReadySignal {
    type V = bool;

    closed spec fn view(&self) -> bool {
        self.pending
    }
}

impl ReadySignal {
    /// A signal with no wake pending.
    pub fn new() -> (r: ReadySignal)
        ensures
            !r@,
    {
        ReadySignal { pending: false }
    }

    /// Sets the flag; setting it again changes nothing.
    pub fn notify(&mut self)
        ensures
            final(self)@ == signal_after(old(self)@, SignalOp::Notify),
    {
        self.pending = true;
    }

    /// Clears the flag.
    pub fn reset(&mut self)
        ensures
            final(self)@ == signal_after(old(self)@, SignalOp::Reset),
    {
        self.pending = false;
    }

    /// Whether a wake is pending, without consuming it.
    pub fn is_pending(&self) -> (r: bool)
        ensures
            r == self@,
    {
        self.pending
    }

    /// Consumes a pending wake: returns whether there was one, and leaves
    /// none pending.
    pub fn take(&mut self) -> (r: bool)
        ensures
            r == wakes(old(self)@, SignalOp::Take),
            final(self)@ == signal_after(old(self)@, SignalOp::Take),
    {
        let r = self.pending;
        self.pending = false;
        r
    }
}

/// An operation on the flag.
pub enum SignalOp {
    Notify,
    Reset,
    Take,
}

/// The flag after `op`.
pub open spec fn signal_after(pending: bool, op: SignalOp) -> bool {
    match op {
        SignalOp::Notify => true,
        _ => false,
    }
}

/// Whether `op` hands the consumer a wake.
pub open spec fn wakes(pending: bool, op: SignalOp) -> bool {
    op is Take && pending
}

/// The flag after running `ops` in order.
pub open spec fn run_signal(pending: bool, ops: Seq<SignalOp>) -> bool
    decreases ops.len(),
{
    if ops.len() == 0 {
        pending
    } else {
        signal_after(run_signal(pending, ops.drop_last()), ops.last())
    }
}

/// The number of wakes handed out while running `ops` in order.
pub open spec fn wake_count(pending: bool, ops: Seq<SignalOp>) -> nat
    decreases ops.len(),
{
    if ops.len() == 0 {
        0
    } else {
        let before = run_signal(pending, ops.drop_last());
        wake_count(pending, ops.drop_last()) + if wakes(before, ops.last()) { 1nat } else { 0nat }
    }
}

proof fn lemma_notifies_set(pending: bool, n: nat)
    requires
        n > 0,
    ensures
        run_signal(pending, Seq::new(n, |i: int| SignalOp::Notify)),
        wake_count(pending, Seq::new(n, |i: int| SignalOp::Notify)) == 0,
    decreases n,
{
    let ops = Seq::new(n, |i: int| SignalOp::Notify);
    assert(ops.drop_last() =~= Seq::new((n - 1) as nat, |i: int| SignalOp::Notify));
    if n > 1 {
        lemma_notifies_set(pending, (n - 1) as nat);
    } else {
        assert(ops.drop_last().len() == 0);
        assert(wake_count(pending, ops.drop_last()) == 0);
    }
    assert(!wakes(run_signal(pending, ops.drop_last()), ops.last()));
}

/// Notifications coalesce: `n >= 1` notifications followed by one take hand
/// out exactly one wake; a reset then leaves nothing for the next take until
/// a fresh notification.
pub proof fn lemma_notifications_coalesce(n: nat)
    requires
        n > 0,
    ensures
        wake_count(false, Seq::new(n, |i: int| SignalOp::Notify).push(SignalOp::Take)) == 1,
        wake_count(
            false,
            Seq::new(n, |i: int| SignalOp::Notify).push(SignalOp::Reset).push(SignalOp::Take),
        ) == 0,
{
    let ops = Seq::new(n, |i: int| SignalOp::Notify);
    lemma_notifies_set(false, n);
    assert(ops.push(SignalOp::Take).drop_last() =~= ops);
    let r = ops.push(SignalOp::Reset);
    assert(r.drop_last() =~= ops);
    assert(r.push(SignalOp::Take).drop_last() =~= r);
    assert(wake_count(false, r) == 0);
    assert(!run_signal(false, r));
}

} // verus!
