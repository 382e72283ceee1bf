//! Bounded FIFO queues and the pipeline's backpressure policy.
//!
//! The data path (ingest, per-venue lanes, signals) must never lose an
//! event: its queues accept an element only while there is room, and the
//! sender throttles — [`BoundedQueue::send`] — so nothing is dropped. The
//! notify path is an advisory "something changed" hint: its queue is lossy —
//! [`BoundedQueue::try_send`] drops on full — so a slow strategy engine can
//! never stall ingest.

use vstd::prelude::*;

verus! {

/// Capacity of the ingest queue (adapter to router); blocking send.
pub const INGEST_CAPACITY: usize = 4096;

/// Capacity of each per-venue lane (router to worker); blocking send.
pub const LANE_CAPACITY: usize = 1024;

/// Capacity of the notify queue (worker to engine); try-send, drop on full.
pub const NOTIFY_CAPACITY: usize = 512;

/// Capacity of the signal queue (engine to bridge); blocking send.
pub const SIGNAL_CAPACITY: usize = 64;

/// A bounded FIFO queue. The view is the sequence of queued elements,
/// oldest first.
pub struct BoundedQueue<T> {
    items: Vec<T>,
    capacity: usize,
}

impl<T> View for BoundedQueue<T> {
    type V = Seq<T>;

    closed spec fn view(&self) -> Seq<T> {
        self.items@
    }
}

impl<T> BoundedQueue<T> {
    /// The queue's fixed capacity.
    pub closed spec fn cap(&self) -> usize {
        self.capacity
    }

    /// An empty queue bounded at `capacity`.
    pub fn new(capacity: usize) -> (q: BoundedQueue<T>)
        ensures
            q@.len() == 0,
            q.cap() == capacity,
    {
        BoundedQueue { items: Vec::new(), capacity }
    }

    /// How many elements are queued.
    pub fn len(&self) -> (n: usize)
        ensures
            n == self@.len(),
    {
        self.items.len()
    }

    /// Whether the queue is at capacity.
    pub fn is_full(&self) -> (full: bool)
        ensures
            full == (self@.len() >= self.cap()),
    {
        self.items.len() >= self.capacity
    }

    /// Lossy enqueue, the notify-path policy: appends and succeeds while
    /// there is room; on a full queue the element is dropped silently and
    /// the queue is unchanged.
    pub fn try_send(&mut self, item: T) -> (accepted: bool)
        ensures
            accepted == (old(self)@.len() < old(self).cap()),
            accepted ==> final(self)@ == old(self)@.push(item),
            !accepted ==> final(self)@ == old(self)@,
            final(self).cap() == old(self).cap(),
    {
        if self.items.len() < self.capacity {
            self.items.push(item);
            true
        } else {
            false
        }
    }

    /// Lossless enqueue, the data-path policy: the caller must wait for
    /// room (backpressure), and the element is always appended — an event
    /// on the data path is never lost.
    pub fn send(&mut self, item: T)
        requires
            old(self)@.len() < old(self).cap(),
        ensures
            final(self)@ == old(self)@.push(item),
            final(self).cap() == old(self).cap(),
    {
        self.items.push(item);
    }

    /// Dequeue the oldest element, if any.
    pub fn recv(&mut self) -> (r: Option<T>)
        ensures
            old(self)@.len() == 0 ==> r is None && final(self)@ == old(self)@,
            old(self)@.len() > 0 ==> (match r {
                Some(item) => item == old(self)@[0]
                    && final(self)@ == old(self)@.drop_first(),
                None => false,
            }),
            final(self).cap() == old(self).cap(),
    {
        if self.items.len() == 0 {
            None
        } else {
            let item = self.items.remove(0);
            proof {
                assert(self.items@ =~= old(self).items@.drop_first());
            }
            Some(item)
        }
    }
}

/// The contents a lossy queue bounded at `cap` holds after offering
/// `items` one by one, in order: each element joins the tail while there is
/// room and is dropped otherwise. One offer is exactly what
/// [`BoundedQueue::try_send`] does.
pub open spec fn lossy_enqueue<T>(contents: Seq<T>, cap: nat, items: Seq<T>) -> Seq<T>
    decreases items.len(),
{
    if items.len() == 0 {
        contents
    } else {
        let after = if contents.len() < cap {
            contents.push(items[0])
        } else {
            contents
        };
        lossy_enqueue(after, cap, items.drop_first())
    }
}

/// A producer that stays under the bound never observes a drop: offering
/// `items` to a lossy queue whose lag (queued plus offered) is within the
/// capacity accepts every element, in arrival order.
pub proof fn lemma_lossy_enqueue_no_drop_under_lag<T>(contents: Seq<T>, cap: nat, items: Seq<T>)
    requires
        contents.len() + items.len() <= cap,
    ensures
        lossy_enqueue(contents, cap, items) == contents + items,
    decreases items.len(),
{
    if items.len() == 0 {
        assert(contents + items =~= contents);
    } else {
        lemma_lossy_enqueue_no_drop_under_lag(contents.push(items[0]), cap, items.drop_first());
        assert(contents.push(items[0]) + items.drop_first() =~= contents + items);
    }
}

} // verus!
