//! Fixed-capacity byte queues backed by `heapless::spsc::Queue`.
//!
//! Each UART channel owns two of these ring buffers: one for bytes received
//! from the wire and one for bytes awaiting transmission. The queues are
//! single-producer/single-consumer and never block; a full queue is handled
//! by an explicit backpressure policy (drop-newest or drop-oldest) chosen by
//! the caller.

use vstd::prelude::*;

verus! {

/// Capacity of each byte queue: a full queue holds exactly this many bytes.
pub const QUEUE_CAPACITY: usize = 32;

// The heapless ring buffer keeps one slot free to tell "full" from "empty",
// so 33 slots give a usable capacity of 32 bytes.
type RawQueue = heapless::spsc::Queue<u8, 33>;

#[verifier::external_type_specification]
#[verifier::external_body]
#[verifier::reject_recursive_types(T)]
pub struct ExSpscQueue<T, const N: usize>(heapless::spsc::Queue<T, N>);

/// The bytes a `heapless::spsc::Queue` holds, oldest first.
pub uninterp spec fn spsc_contents(q: heapless::spsc::Queue<u8, 33>) -> Seq<u8>;

/// Relies on `heapless::spsc::Queue::new`: the queue starts empty
/// (head == tail == 0).
#[verifier::external_body]
fn spsc_new() -> (q: RawQueue)
    ensures
        spsc_contents(q) == Seq::<u8>::empty(),
{
    heapless::spsc::Queue::new()
}

/// Relies on `heapless::spsc::Queue::enqueue`: appends the item at the back
/// and returns `Ok` unless the queue already holds `N - 1` items, in which
/// case it hands the item back unchanged.
#[verifier::external_body]
fn spsc_enqueue(q: &mut RawQueue, b: u8) -> (r: Result<(), u8>)
    ensures
        spsc_contents(*final(q)) == (if spsc_contents(*old(q)).len() < QUEUE_CAPACITY {
            spsc_contents(*old(q)).push(b)
        } else {
            spsc_contents(*old(q))
        }),
        r == (if spsc_contents(*old(q)).len() < QUEUE_CAPACITY {
            Ok::<(), u8>(())
        } else {
            Err::<(), u8>(b)
        }),
    no_unwind
{
    q.enqueue(b)
}

/// Relies on `heapless::spsc::Queue::dequeue`: removes and returns the item
/// at the front, or returns `None` if the queue is empty.
#[verifier::external_body]
fn spsc_dequeue(q: &mut RawQueue) -> (r: Option<u8>)
    ensures
        spsc_contents(*final(q)) == (if spsc_contents(*old(q)).len() > 0 {
            spsc_contents(*old(q)).drop_first()
        } else {
            spsc_contents(*old(q))
        }),
        r == (if spsc_contents(*old(q)).len() > 0 {
            Some(spsc_contents(*old(q))[0])
        } else {
            None::<u8>
        }),
    no_unwind
{
    q.dequeue()
}

/// Relies on `heapless::spsc::Queue::len`: returns the number of items held,
/// `(tail - head) mod N`.
#[verifier::external_body]
fn spsc_len(q: &RawQueue) -> (n: usize)
    ensures
        n == spsc_contents(*q).len(),
{
    q.len()
}

/// Relies on `heapless::spsc::Queue::capacity`: returns `N - 1`.
#[verifier::external_body]
fn spsc_capacity(q: &RawQueue) -> (n: usize)
    ensures
        n == QUEUE_CAPACITY,
{
    q.capacity()
}

/// Error returned by `ByteQueue::enqueue` when the queue is at capacity.
#[derive(Clone, Copy, Debug, PartialEq, Eq, Structural)]
pub struct Full;

/// One enqueue under the drop-newest policy: the byte is appended if the
/// queue has room and discarded otherwise.
pub open spec fn enqueue_drop_newest(s: Seq<u8>, b: u8) -> Seq<u8> {
    if s.len() < QUEUE_CAPACITY {
        s.push(b)
    } else {
        s
    }
}

/// One enqueue under the drop-oldest policy: when the queue is full the
/// oldest byte is evicted to make room, so the new byte is always kept.
pub open spec fn enqueue_drop_oldest(s: Seq<u8>, b: u8) -> Seq<u8> {
    if s.len() < QUEUE_CAPACITY {
        s.push(b)
    } else {
        s.drop_first().push(b)
    }
}

/// A sequence of drop-newest enqueues, applied first byte of `bs` first.
pub open spec fn enqueue_all_drop_newest(s: Seq<u8>, bs: Seq<u8>) -> Seq<u8>
    decreases bs.len(),
{
    if bs.len() == 0 {
        s
    } else {
        enqueue_all_drop_newest(enqueue_drop_newest(s, bs[0]), bs.drop_first())
    }
}

/// A sequence of drop-oldest enqueues, applied first byte of `bs` first.
pub open spec fn enqueue_all_drop_oldest(s: Seq<u8>, bs: Seq<u8>) -> Seq<u8>
    decreases bs.len(),
{
    if bs.len() == 0 {
        s
    } else {
        enqueue_all_drop_oldest(enqueue_drop_oldest(s, bs[0]), bs.drop_first())
    }
}

/// A length clamped to the queue capacity.
pub open spec fn clamp_len(n: int) -> int {
    if n <= QUEUE_CAPACITY {
        n
    } else {
        QUEUE_CAPACITY as int
    }
}

/// Under the drop-newest policy, a queue keeps the oldest bytes it was
/// offered: after feeding `bs` into a queue holding `s`, it holds the first
/// `clamp_len((s.len() + bs.len()) as int)` bytes of `s + bs`.
pub proof fn lemma_enqueue_all_drop_newest(s: Seq<u8>, bs: Seq<u8>)
    requires
        s.len() <= QUEUE_CAPACITY,
    ensures
        enqueue_all_drop_newest(s, bs) == (s + bs).take(clamp_len((s.len() + bs.len()) as int)),
    decreases bs.len(),
{
    if bs.len() == 0 {
        assert(s + bs =~= s);
        assert(s.take(clamp_len(s.len() as int)) =~= s);
    } else if s.len() < QUEUE_CAPACITY {
        let s1 = s.push(bs[0]);
        lemma_enqueue_all_drop_newest(s1, bs.drop_first());
        assert(s1 + bs.drop_first() =~= s + bs);
    } else {
        lemma_enqueue_all_drop_newest(s, bs.drop_first());
        assert((s + bs.drop_first()).take(QUEUE_CAPACITY as int) =~= s);
        assert((s + bs).take(QUEUE_CAPACITY as int) =~= s);
    }
}

/// Under the drop-oldest policy, a queue keeps the newest bytes it was
/// offered: after feeding `bs` into a queue holding `s`, it holds `s + bs`
/// with everything but the last `QUEUE_CAPACITY` bytes evicted.
pub proof fn lemma_enqueue_all_drop_oldest(s: Seq<u8>, bs: Seq<u8>)
    requires
        s.len() <= QUEUE_CAPACITY,
    ensures
        enqueue_all_drop_oldest(s, bs) == (s + bs).skip(
            (s.len() + bs.len()) as int - clamp_len((s.len() + bs.len()) as int),
        ),
    decreases bs.len(),
{
    if bs.len() == 0 {
        assert((s + bs).skip(0) =~= s);
    } else if s.len() < QUEUE_CAPACITY {
        let s1 = s.push(bs[0]);
        lemma_enqueue_all_drop_oldest(s1, bs.drop_first());
        assert(s1 + bs.drop_first() =~= s + bs);
    } else {
        let s1 = s.drop_first().push(bs[0]);
        lemma_enqueue_all_drop_oldest(s1, bs.drop_first());
        let total = s.len() + bs.len();
        let evicted = total - clamp_len(total as int);
        assert(s1 + bs.drop_first() =~= (s + bs).drop_first());
        assert((s + bs).drop_first().skip(evicted - 1) =~= (s + bs).skip(evicted));
    }
}

/// Queue bound law: whatever the backpressure policy, after any sequence of
/// enqueues a queue holds `clamp_len` of the total offered bytes. It never
/// exceeds `QUEUE_CAPACITY`, and once the offered bytes reach capacity its
/// length is exactly `QUEUE_CAPACITY` from then on.
pub proof fn lemma_queue_bound(s: Seq<u8>, bs: Seq<u8>)
    requires
        s.len() <= QUEUE_CAPACITY,
    ensures
        enqueue_all_drop_newest(s, bs).len() == clamp_len((s.len() + bs.len()) as int),
        enqueue_all_drop_oldest(s, bs).len() == clamp_len((s.len() + bs.len()) as int),
        enqueue_all_drop_newest(s, bs).len() <= QUEUE_CAPACITY,
        enqueue_all_drop_oldest(s, bs).len() <= QUEUE_CAPACITY,
        s.len() + bs.len() >= QUEUE_CAPACITY ==> enqueue_all_drop_newest(s, bs).len()
            == QUEUE_CAPACITY && enqueue_all_drop_oldest(s, bs).len() == QUEUE_CAPACITY,
{
    lemma_enqueue_all_drop_newest(s, bs);
    lemma_enqueue_all_drop_oldest(s, bs);
}

/// Drop-oldest vs drop-newest law: feeding `QUEUE_CAPACITY + 1` bytes into
/// an empty queue leaves, under drop-oldest, the newest `QUEUE_CAPACITY`
/// bytes (the first byte fed is the one discarded), and under drop-newest
/// the oldest `QUEUE_CAPACITY` bytes (the last byte fed is the one
/// discarded).
pub proof fn lemma_drop_oldest_vs_drop_newest(bs: Seq<u8>)
    requires
        bs.len() == QUEUE_CAPACITY + 1,
    ensures
        enqueue_all_drop_oldest(Seq::<u8>::empty(), bs) == bs.drop_first(),
        enqueue_all_drop_newest(Seq::<u8>::empty(), bs) == bs.drop_last(),
{
    lemma_enqueue_all_drop_newest(Seq::<u8>::empty(), bs);
    lemma_enqueue_all_drop_oldest(Seq::<u8>::empty(), bs);
    assert((Seq::<u8>::empty() + bs).skip(1) =~= bs.drop_first());
    assert((Seq::<u8>::empty() + bs).take(QUEUE_CAPACITY as int) =~= bs.drop_last());
}

/// A fixed-capacity FIFO byte queue holding at most `QUEUE_CAPACITY` bytes.
///
/// Its abstract value (`@`) is the sequence of held bytes, oldest first.
pub struct ByteQueue {
    raw: RawQueue,
}

impl View for ByteQueue {
    type V = Seq<u8>;

    closed spec fn view(&self) -> Seq<u8> {
        spsc_contents(self.raw)
    }
}

impl ByteQueue {
    #[verifier::type_invariant]
    closed spec fn inv(self) -> bool {
        spsc_contents(self.raw).len() <= QUEUE_CAPACITY
    }

    /// Creates an empty queue.
    pub fn new() -> (q: ByteQueue)
        ensures
            q@ == Seq::<u8>::empty(),
    {
        ByteQueue { raw: spsc_new() }
    }

    /// Appends `b` if capacity remains, else fails with `Full` and drops the
    /// byte: the drop-newest policy.
    pub fn enqueue(&mut self, b: u8) -> (r: Result<(), Full>)
        ensures
            final(self)@ == enqueue_drop_newest(old(self)@, b),
            r == Ok::<(), Full>(()) <==> old(self)@.len() < QUEUE_CAPACITY,
    {
        proof {
            use_type_invariant(&*self);
        }
        match spsc_enqueue(&mut self.raw, b) {
            Ok(()) => Ok(()),
            Err(_) => Err(Full),
        }
    }

    /// Appends `b`, evicting the oldest byte first when the queue is full:
    /// the drop-oldest policy. The new byte is never lost.
    pub fn enqueue_drop_oldest(&mut self, b: u8)
        ensures
            final(self)@ == enqueue_drop_oldest(old(self)@, b),
    {
        proof {
            use_type_invariant(&*self);
        }
        if self.len() == self.capacity() {
            let _ = spsc_dequeue(&mut self.raw);
        }
        let _ = spsc_enqueue(&mut self.raw, b);
    }

    /// Removes and returns the oldest byte, or `None` if the queue is empty.
    pub fn dequeue(&mut self) -> (r: Option<u8>)
        ensures
            old(self)@.len() > 0 ==> r == Some(old(self)@[0])
                && final(self)@ == old(self)@.drop_first(),
            old(self)@.len() == 0 ==> r == None::<u8> && final(self)@ == old(self)@,
    {
        proof {
            use_type_invariant(&*self);
        }
        spsc_dequeue(&mut self.raw)
    }

    /// Returns the number of bytes held.
    pub fn len(&self) -> (n: usize)
        ensures
            n == self@.len(),
    {
        proof {
            use_type_invariant(&*self);
        }
        spsc_len(&self.raw)
    }

    /// Returns the maximum number of bytes the queue can hold.
    pub fn capacity(&self) -> (n: usize)
        ensures
            n == QUEUE_CAPACITY,
    {
        spsc_capacity(&self.raw)
    }
}

} // verus!
