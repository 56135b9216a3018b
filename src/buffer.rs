//! The bounded frame buffer shared by the producers and the transport task.
use vstd::prelude::*;

verus! {

/// Fixed capacity of the frame buffer, in bytes.
pub const CAPACITY: usize = 1024;

#[verifier::external_type_specification]
#[verifier::external_body]
#[verifier::reject_recursive_types(T)]
pub struct ExHeaplessVec<T, const N: usize>(heapless::Vec<T, N>);

/// The bytes that a fixed-capacity vector holds, in order.
pub uninterp spec fn held(v: heapless::Vec<u8, 1024>) -> Seq<u8>;

/// Relies on heapless::Vec::new: a new vector is empty.
#[verifier::external_body]
fn store_new() -> (r: heapless::Vec<u8, 1024>)
    ensures
        held(r) == Seq::<u8>::empty(),
{
    heapless::Vec::new()
}

/// Relies on heapless::Vec's length, which never exceeds its capacity.
#[verifier::external_body]
fn store_len(v: &heapless::Vec<u8, 1024>) -> (r: usize)
    ensures
        r == held(*v).len(),
        r <= CAPACITY,
{
    v.len()
}

/// Relies on heapless::Vec::extend_from_slice: it appends the whole slice
/// when it fits, and changes nothing otherwise.
#[verifier::external_body]
fn store_extend(v: &mut heapless::Vec<u8, 1024>, bytes: &[u8]) -> (r: bool)
    ensures
        r == (held(*old(v)).len() + bytes@.len() <= CAPACITY),
        r ==> held(*final(v)) == held(*old(v)) + bytes@,
        !r ==> held(*final(v)) == held(*old(v)),
{
    v.extend_from_slice(bytes).is_ok()
}

/// Relies on core::mem::take, with heapless::Vec's `Default` (an empty
/// vector): the old contents are returned and an empty vector left behind.
#[verifier::external_body]
fn store_take(v: &mut heapless::Vec<u8, 1024>) -> (r: heapless::Vec<u8, 1024>)
    ensures
        held(r) == held(*old(v)),
        held(*final(v)) == Seq::<u8>::empty(),
{
    core::mem::take(v)
}

/// Relies on heapless::Vec::as_slice and slice::to_vec: a copy of the bytes.
#[verifier::external_body]
fn store_to_vec(v: &heapless::Vec<u8, 1024>) -> (r: Vec<u8>)
    ensures
        r@ == held(*v),
{
    v.as_slice().to_vec()
}

/// How many of `incoming` bytes fit beside `held_len` bytes already held.
pub open spec fn appended_len(held_len: nat, incoming: nat) -> nat {
    if held_len + incoming <= CAPACITY {
        incoming
    } else if held_len <= CAPACITY {
        (CAPACITY - held_len) as nat
    } else {
        0
    }
}

/// The contents after `incoming` is appended to `held`: the part that fits
/// goes after the bytes already held, the rest is dropped.
pub open spec fn after_append(held: Seq<u8>, incoming: Seq<u8>) -> Seq<u8> {
    held + incoming.subrange(0, appended_len(held.len(), incoming.len()) as int)
}

/// Occupancy never exceeds the capacity, and an append that overflows drops
/// only the excess: the bytes held before stay as they were, followed by the
/// longest prefix of the new bytes that fits.
pub proof fn lemma_append_bounded(held: Seq<u8>, incoming: Seq<u8>)
    requires
        held.len() <= CAPACITY,
    ensures
        after_append(held, incoming).len() <= CAPACITY,
        after_append(held, incoming).subrange(0, held.len() as int) == held,
        held.len() + incoming.len() <= CAPACITY ==> after_append(held, incoming) == held + incoming,
        held.len() + incoming.len() > CAPACITY ==> after_append(held, incoming).len() == CAPACITY,
        after_append(held, incoming).subrange(held.len() as int, after_append(held, incoming).len() as int)
            == incoming.subrange(0, after_append(held, incoming).len() - held.len()),
{
    let r = after_append(held, incoming);
    assert(r.subrange(0, held.len() as int) =~= held);
    assert(r.subrange(held.len() as int, r.len() as int) =~= incoming.subrange(0, r.len() - held.len()));
    if held.len() + incoming.len() <= CAPACITY {
        assert(incoming.subrange(0, incoming.len() as int) =~= incoming);
    }
}

/// Bytes appended right after the buffer was emptied are not lost: they are
/// what the emptied buffer then holds (all of them, when they fit).
pub proof fn lemma_append_after_take(incoming: Seq<u8>)
    requires
        incoming.len() <= CAPACITY,
    ensures
        after_append(Seq::<u8>::empty(), incoming) == incoming,
{
    assert(Seq::<u8>::empty() + incoming.subrange(0, incoming.len() as int) =~= incoming);
}

/// An ordered byte container that never holds more than `CAPACITY` bytes.
pub struct FrameBuffer {
    store: heapless::Vec<u8, 1024>,
}

impl View for FrameBuffer {
    type V = Seq<u8>;

    closed spec fn view(&self) -> Seq<u8> {
        held(self.store)
    }
}

impl FrameBuffer {
    /// The buffer's invariant: it holds at most `CAPACITY` bytes.
    pub open spec fn wf(&self) -> bool {
        self@.len() <= CAPACITY
    }

    /// An empty buffer.
    pub fn new() -> (r: FrameBuffer)
        ensures
            r.wf(),
            r@ == Seq::<u8>::empty(),
    {
        FrameBuffer { store: store_new() }
    }

    /// Number of bytes held.
    pub fn len(&self) -> (r: usize)
        ensures
            r == self@.len(),
            r <= CAPACITY,
    {
        store_len(&self.store)
    }

    /// Appends as much of `bytes` as fits and drops the excess; the bytes
    /// already held are kept. Returns how many bytes were stored.
    pub fn append(&mut self, bytes: &[u8]) -> (kept: usize)
        requires
            old(self).wf(),
        ensures
            final(self).wf(),
            kept == appended_len(old(self)@.len(), bytes@.len()),
            final(self)@ == after_append(old(self)@, bytes@),
    {
        let len = self.len();
        let room: usize = CAPACITY - len;
        let kept: usize = if bytes.len() <= room { bytes.len() } else { room };
        let part = vstd::slice::slice_subrange(bytes, 0, kept);
        let ok = store_extend(&mut self.store, part);
        assert(ok);
        kept
    }

    /// Swaps the contents for an empty buffer and returns what was held.
    pub fn take_all(&mut self) -> (r: Vec<u8>)
        requires
            old(self).wf(),
        ensures
            final(self).wf(),
            r@ == old(self)@,
            final(self)@ == Seq::<u8>::empty(),
    {
        let taken = store_take(&mut self.store);
        store_to_vec(&taken)
    }

    /// A copy of the bytes held, oldest first.
    pub fn to_vec(&self) -> (r: Vec<u8>)
        ensures
            r@ == self@,
    {
        store_to_vec(&self.store)
    }
}

} // verus!
