//! The producer side: the single-holder frame guard and the write path into
//! the shared queue.
use vstd::prelude::*;
use crate::buffer::{FrameBuffer, after_append, appended_len};
use crate::signal::ReadySignal;

verus! {

#[verifier::external_type_specification]
#[verifier::external_body]
pub struct ExRestoreState(critical_section::RestoreState);

/// What the producers and the transport task share: the frame buffer and the
/// wake flag that tells the transport task there is something to drain.
pub struct LogQueue {
    pub buffer: FrameBuffer,
    pub signal: ReadySignal,
}

impl LogQueue {
    pub open spec fn wf(&self) -> bool {
        self.buffer.wf()
    }

    /// An empty queue with no wake pending.
    pub fn new() -> (r: LogQueue)
        ensures
            r.wf(),
            r.buffer@ == Seq::<u8>::empty(),
            !r.signal@,
    {
        LogQueue { buffer: FrameBuffer::new(), signal: ReadySignal::new() }
    }

    /// The transport task's side once it is woken and has settled: clears
    /// the wake flag and takes everything buffered, leaving the buffer empty.
    pub fn drain(&mut self) -> (r: Vec<u8>)
        requires
            old(self).wf(),
        ensures
            final(self).wf(),
            r@ == old(self).buffer@,
            final(self).buffer@ == Seq::<u8>::empty(),
            !final(self).signal@,
    {
        self.signal.reset();
        self.buffer.take_all()
    }
}

/// The write path, run once the producer holds the queue: appends what fits
/// of `bytes`, drops the excess, and sets the wake flag when the append
/// succeeded (anything was stored, or there was nothing to store). Returns
/// how many bytes were stored.
pub fn inner(queue: &mut LogQueue, bytes: &[u8]) -> (kept: usize)
    requires
        old(queue).wf(),
    ensures
        final(queue).wf(),
        kept == appended_len(old(queue).buffer@.len(), bytes@.len()),
        final(queue).buffer@ == after_append(old(queue).buffer@, bytes@),
        final(queue).signal@ == (old(queue).signal@ || kept > 0 || bytes@.len() == 0),
{
    let kept = queue.buffer.append(bytes);
    if kept > 0 || bytes.len() == 0 {
        queue.signal.notify();
    }
    kept
}

/// An operation of the frame guard.
pub enum FrontendOp {
    Acquire,
    Write,
    Release,
}

/// The number of holders after `op`, from `holders`; `None` is the fatal
/// reentrancy path.
pub open spec fn frontend_step(holders: nat, op: FrontendOp) -> Option<nat> {
    match op {
        FrontendOp::Acquire => if holders == 0 { Some(1nat) } else { None },
        FrontendOp::Write => Some(holders),
        FrontendOp::Release => Some(0nat),
    }
}

/// The number of holders after running `ops` in order from a free guard;
/// `None` once the fatal path was taken.
pub open spec fn frontend_run(ops: Seq<FrontendOp>) -> Option<nat>
    decreases ops.len(),
{
    if ops.len() == 0 {
        Some(0nat)
    } else {
        match frontend_run(ops.drop_last()) {
            Some(h) => frontend_step(h, ops.last()),
            None => None,
        }
    }
}

/// Under every sequence of acquisitions, writes and releases, at most one
/// acquisition is held at a time, and an acquisition made while one is held
/// takes the fatal reentrancy path.
pub proof fn lemma_single_holder(ops: Seq<FrontendOp>)
    ensures
        frontend_run(ops) matches Some(h) ==> h <= 1,
        frontend_run(ops) == Some(1nat) ==> frontend_run(ops.push(FrontendOp::Acquire)) is None,
    decreases ops.len(),
{
    if ops.len() > 0 {
        lemma_single_holder(ops.drop_last());
    }
    assert(ops.push(FrontendOp::Acquire).drop_last() =~= ops);
}

/// The guard that serialises frame production: at most one holder, which
/// keeps the token that restores the state from before it entered.
pub struct Frontend {
    taken: bool,
    restore: Option<critical_section::RestoreState>,
}

impl View for Frontend {
    type V = nat;

    /// The number of holders.
    closed spec fn view(&self) -> nat {
        if self.taken { 1 } else { 0 }
    }
}

impl Frontend {
    /// The token kept by the holder, if any.
    pub closed spec fn token(&self) -> Option<critical_section::RestoreState> {
        self.restore
    }

    pub closed spec fn wf(&self) -> bool {
        self.taken == self.restore.is_some()
    }

    /// A free guard.
    pub fn new() -> (r: Frontend)
        ensures
            r.wf(),
            r@ == 0,
            r.token() is None,
    {
        Frontend { taken: false, restore: None }
    }

    /// Whether the guard is held.
    pub fn is_held(&self) -> (r: bool)
        ensures
            r == (self@ == 1),
    {
        self.taken
    }

    /// Takes the free guard and keeps `restore` for the matching release.
    /// Taking a guard that is already held is the fatal reentrancy path: the
    /// caller tests `is_held` first and stops there.
    pub fn acquire(&mut self, restore: critical_section::RestoreState)
        requires
            old(self).wf(),
            old(self)@ == 0,
        ensures
            final(self).wf(),
            frontend_step(old(self)@, FrontendOp::Acquire) == Some(final(self)@),
            final(self)@ == 1,
            final(self).token() == Some(restore),
    {
        self.taken = true;
        self.restore = Some(restore);
    }

    /// Frees the guard held since the matching acquisition and hands back
    /// the token that it kept.
    pub fn release(&mut self) -> (r: critical_section::RestoreState)
        requires
            old(self).wf(),
            old(self)@ == 1,
        ensures
            final(self).wf(),
            old(self).token() == Some(r),
            frontend_step(old(self)@, FrontendOp::Release) == Some(final(self)@),
            final(self)@ == 0,
            final(self).token() is None,
    {
        self.taken = false;
        let kept = self.restore.take();
        kept.unwrap()
    }

    /// Writes bytes of the current frame through the write path; only the
    /// holder writes.
    pub fn write(&self, queue: &mut LogQueue, bytes: &[u8]) -> (kept: usize)
        requires
            self@ == 1,
            old(queue).wf(),
        ensures
            final(queue).wf(),
            kept == appended_len(old(queue).buffer@.len(), bytes@.len()),
            final(queue).buffer@ == after_append(old(queue).buffer@, bytes@),
            final(queue).signal@ == (old(queue).signal@ || kept > 0 || bytes@.len() == 0),
    {
        inner(queue, bytes)
    }

    /// Does nothing: draining is the transport task's work.
    pub fn flush(&self) {
    }
}

} // verus!
