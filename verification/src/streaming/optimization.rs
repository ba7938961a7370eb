//! Shared optimization structures for the streaming pipeline.

use crate::streaming::simd_ops::processor_count;
use std::collections::VecDeque;
use vstd::prelude::*;

verus! {

/// Network conditions as classified from latency and loss measurements.
#[derive(Debug, Clone, Copy, PartialEq, Eq)]
pub enum NetworkQuality {
    /// Under 10 ms latency, no packet loss.
    Excellent,
    /// 10-30 ms latency, under 1% loss.
    Good,
    /// 30-50 ms latency, 1-3% loss.
    Fair,
    /// Over 50 ms latency or over 3% loss.
    Poor,
}

/// Mathematical model of a [`PriorityFrameQueue`]: three FIFO classes, the
/// capacity and the number of items dropped so far.
pub struct PriorityQueueModel<T> {
    pub high: Seq<T>,
    pub normal: Seq<T>,
    pub low: Seq<T>,
    pub max_size: nat,
    pub dropped: nat,
}

/// The class an item of the given priority is queued in: 0 (low) for 0..=2,
/// 1 (normal) for 3..=5, 2 (high) above.
pub open spec fn priority_class(priority: u8) -> int {
    if priority <= 2 {
        0
    } else if priority <= 5 {
        1
    } else {
        2
    }
}

impl<T> PriorityQueueModel<T> {
    pub open spec fn len(self) -> nat {
        self.high.len() + self.normal.len() + self.low.len()
    }

    /// The model after making room: when the queue is at capacity, the oldest
    /// item of the lowest non-empty class is dropped and counted.
    pub open spec fn make_room(self) -> Self {
        if self.len() >= self.max_size {
            if self.low.len() > 0 {
                PriorityQueueModel { low: self.low.drop_first(), dropped: self.dropped + 1, ..self }
            } else if self.normal.len() > 0 {
                PriorityQueueModel { normal: self.normal.drop_first(), dropped: self.dropped + 1, ..self }
            } else if self.high.len() > 0 {
                PriorityQueueModel { high: self.high.drop_first(), dropped: self.dropped + 1, ..self }
            } else {
                self
            }
        } else {
            self
        }
    }

    /// The model after `push(item, priority)`.
    pub open spec fn pushed(self, item: T, priority: u8) -> Self {
        let r = self.make_room();
        if priority_class(priority) == 0 {
            PriorityQueueModel { low: r.low.push(item), ..r }
        } else if priority_class(priority) == 1 {
            PriorityQueueModel { normal: r.normal.push(item), ..r }
        } else {
            PriorityQueueModel { high: r.high.push(item), ..r }
        }
    }

    /// The item `pop` returns: the oldest item of the highest non-empty class.
    pub open spec fn front(self) -> Option<T> {
        if self.high.len() > 0 {
            Some(self.high[0])
        } else if self.normal.len() > 0 {
            Some(self.normal[0])
        } else if self.low.len() > 0 {
            Some(self.low[0])
        } else {
            None
        }
    }

    /// The model after `pop`.
    pub open spec fn popped(self) -> Self {
        if self.high.len() > 0 {
            PriorityQueueModel { high: self.high.drop_first(), ..self }
        } else if self.normal.len() > 0 {
            PriorityQueueModel { normal: self.normal.drop_first(), ..self }
        } else if self.low.len() > 0 {
            PriorityQueueModel { low: self.low.drop_first(), ..self }
        } else {
            self
        }
    }

    /// The bound the queue length never exceeds.
    pub open spec fn bounded(self) -> bool {
        self.len() <= if self.max_size == 0 { 1 } else { self.max_size }
    }
}

/// Memory-bounded priority queue for frames: three FIFO classes served from
/// high to low, dropping the oldest lowest-priority item when full.
pub struct PriorityFrameQueue<T> {
    high_priority: VecDeque<T>,
    normal_priority: VecDeque<T>,
    low_priority: VecDeque<T>,
    max_size: usize,
    dropped_frames: u64,
}

impl<T> View for PriorityFrameQueue<T> {
    type V = PriorityQueueModel<T>;

    closed spec fn view(&self) -> PriorityQueueModel<T> {
        PriorityQueueModel {
            high: self.high_priority@,
            normal: self.normal_priority@,
            low: self.low_priority@,
            max_size: self.max_size as nat,
            dropped: self.dropped_frames as nat,
        }
    }
}

impl<T> PriorityFrameQueue<T> {
    /// Well-formedness: the queue never holds more than its capacity (or one
    /// item, for a capacity of zero).
    pub closed spec fn wf(&self) -> bool {
        self@.bounded()
    }

    /// An empty queue holding at most `max_size` items (at least one).
    pub fn new(max_size: usize) -> (q: Self)
        ensures
            q@.high == Seq::<T>::empty(),
            q@.normal == Seq::<T>::empty(),
            q@.low == Seq::<T>::empty(),
            q@.max_size == max_size,
            q@.dropped == 0,
            q.wf(),
    {
        PriorityFrameQueue {
            high_priority: VecDeque::new(),
            normal_priority: VecDeque::new(),
            low_priority: VecDeque::new(),
            max_size,
            dropped_frames: 0,
        }
    }

    /// Queues `item` in the class of `priority` (0..=2 low, 3..=5 normal,
    /// otherwise high). When the queue already holds `max_size` items, the
    /// oldest item of the lowest non-empty class is dropped first.
    pub fn push(&mut self, item: T, priority: u8)
        requires
            old(self).wf(),
            old(self)@.len() >= old(self)@.max_size && old(self)@.len() > 0 ==> old(self)@.dropped < u64::MAX,
        ensures
            final(self).wf(),
            final(self)@ == old(self)@.pushed(item, priority),
            final(self)@.len() + final(self)@.dropped == old(self)@.len() + old(self)@.dropped + 1,
    {
        let total = self.high_priority.len() + self.normal_priority.len() + self.low_priority.len();
        if total >= self.max_size {
            if self.low_priority.len() > 0 {
                let _ = self.low_priority.pop_front();
                self.dropped_frames = self.dropped_frames + 1;
            } else if self.normal_priority.len() > 0 {
                let _ = self.normal_priority.pop_front();
                self.dropped_frames = self.dropped_frames + 1;
            } else if self.high_priority.len() > 0 {
                let _ = self.high_priority.pop_front();
                self.dropped_frames = self.dropped_frames + 1;
            }
        }
        if priority <= 2 {
            self.low_priority.push_back(item);
        } else if priority <= 5 {
            self.normal_priority.push_back(item);
        } else {
            self.high_priority.push_back(item);
        }
    }

    /// Removes and returns the oldest item of the highest non-empty class.
    pub fn pop(&mut self) -> (r: Option<T>)
        requires
            old(self).wf(),
        ensures
            final(self).wf(),
            r == old(self)@.front(),
            final(self)@ == old(self)@.popped(),
    {
        if let Some(item) = self.high_priority.pop_front() {
            return Some(item);
        }
        if let Some(item) = self.normal_priority.pop_front() {
            return Some(item);
        }
        self.low_priority.pop_front()
    }

    /// Number of queued items over all classes.
    pub fn len(&self) -> (n: usize)
        requires
            self.wf(),
        ensures
            n == self@.len(),
    {
        self.high_priority.len() + self.normal_priority.len() + self.low_priority.len()
    }

    /// Whether no item is queued.
    pub fn is_empty(&self) -> (b: bool)
        requires
            self.wf(),
        ensures
            b == (self@.len() == 0),
    {
        self.len() == 0
    }

    /// Number of items dropped to respect the capacity.
    pub fn dropped_count(&self) -> (n: u64)
        ensures
            n == self@.dropped,
    {
        self.dropped_frames
    }
}

} // verus!

verus! {

/// Below capacity nothing is dropped, and an item joins the back of the
/// low class for priorities 0 to 2, of the normal class for 3 to 5, and of
/// the high class above 5, the other classes staying as they are.
pub proof fn lemma_push_below_capacity_picks_class<T>(m: PriorityQueueModel<T>, item: T, priority: u8)
    requires
        m.len() < m.max_size,
    ensures
        m.pushed(item, priority).dropped == m.dropped,
        priority <= 2 ==> m.pushed(item, priority).low == m.low.push(item) && m.pushed(item, priority).normal
            == m.normal && m.pushed(item, priority).high == m.high,
        3 <= priority <= 5 ==> m.pushed(item, priority).normal == m.normal.push(item) && m.pushed(
            item,
            priority,
        ).low == m.low && m.pushed(item, priority).high == m.high,
        priority >= 6 ==> m.pushed(item, priority).high == m.high.push(item) && m.pushed(item, priority).low
            == m.low && m.pushed(item, priority).normal == m.normal,
{
}

/// Pushing into a full queue drops from the lowest non-empty class, in the
/// order low, normal, high: while a low item is queued the normal and high
/// items all stay; while no low but some normal item is queued, the oldest
/// normal item goes and the high items all stay. One item is dropped and
/// counted either way.
pub proof fn lemma_full_push_drops_lowest_class_first<T>(m: PriorityQueueModel<T>, item: T, priority: u8)
    requires
        m.len() >= m.max_size,
        m.len() > 0,
    ensures
        m.pushed(item, priority).dropped == m.dropped + 1,
        m.low.len() > 0 ==> {
            &&& m.pushed(item, priority).high.take(m.high.len() as int) == m.high
            &&& m.pushed(item, priority).normal.take(m.normal.len() as int) == m.normal
            &&& m.pushed(item, priority).low.take(m.low.len() - 1) == m.low.drop_first()
        },
        m.low.len() == 0 && m.normal.len() > 0 ==> {
            &&& m.pushed(item, priority).high.take(m.high.len() as int) == m.high
            &&& m.pushed(item, priority).normal.take(m.normal.len() - 1) == m.normal.drop_first()
        },
        m.low.len() == 0 && m.normal.len() == 0 ==> m.pushed(item, priority).high.take(
            m.high.len() - 1,
        ) == m.high.drop_first(),
{
    let p = m.pushed(item, priority);
    if m.low.len() > 0 {
        assert(p.high.take(m.high.len() as int) =~= m.high);
        assert(p.normal.take(m.normal.len() as int) =~= m.normal);
        assert(p.low.take(m.low.len() - 1) =~= m.low.drop_first());
    } else if m.normal.len() > 0 {
        assert(p.high.take(m.high.len() as int) =~= m.high);
        assert(p.normal.take(m.normal.len() - 1) =~= m.normal.drop_first());
    } else {
        assert(p.high.take(m.high.len() - 1) =~= m.high.drop_first());
    }
}

/// An item pushed into an empty queue is the next item popped, and popping it
/// leaves the queue empty with the drop count unchanged.
pub proof fn lemma_push_then_pop_on_empty<T>(m: PriorityQueueModel<T>, item: T, priority: u8)
    requires
        m.len() == 0,
    ensures
        m.pushed(item, priority).front() == Some(item),
        m.pushed(item, priority).popped().len() == 0,
        m.pushed(item, priority).popped().dropped == m.dropped,
{
}

/// Within one priority class items leave in the order they entered: from an
/// empty queue with room for two items, two pushes of the same class pop back
/// in push order.
pub proof fn lemma_fifo_within_class<T>(m: PriorityQueueModel<T>, a: T, b: T, priority: u8)
    requires
        m.len() == 0,
        m.max_size >= 2,
    ensures
        m.pushed(a, priority).pushed(b, priority).front() == Some(a),
        m.pushed(a, priority).pushed(b, priority).popped().front() == Some(b),
{
    let m1 = m.pushed(a, priority);
    let m2 = m1.pushed(b, priority);
    assert(m1.len() == 1);
    if priority_class(priority) == 0 {
        assert(m2.low =~= seq![a, b]);
        assert(m2.popped().low =~= seq![b]);
    } else if priority_class(priority) == 1 {
        assert(m2.normal =~= seq![a, b]);
        assert(m2.popped().normal =~= seq![b]);
    } else {
        assert(m2.high =~= seq![a, b]);
        assert(m2.popped().high =~= seq![b]);
    }
}

/// A higher class is served first whatever the arrival order: from an empty
/// queue with room for two items, an item of a higher class pushed after one
/// of a lower class pops first.
pub proof fn lemma_higher_class_first<T>(m: PriorityQueueModel<T>, a: T, pa: u8, b: T, pb: u8)
    requires
        m.len() == 0,
        m.max_size >= 2,
        priority_class(pa) < priority_class(pb),
    ensures
        m.pushed(a, pa).pushed(b, pb).front() == Some(b),
        m.pushed(a, pa).pushed(b, pb).popped().front() == Some(a),
{
}

/// The queue length never exceeds the capacity (one for a capacity of zero),
/// whatever is pushed or popped.
pub proof fn lemma_bounded_preserved<T>(m: PriorityQueueModel<T>, item: T, priority: u8)
    requires
        m.bounded(),
    ensures
        m.pushed(item, priority).bounded(),
        m.popped().bounded(),
{
}

/// A call on a priority queue: a push of an item with a priority, or a pop.
pub enum QueueOp<T> {
    Push(T, u8),
    Pop,
}

/// The model after the calls `ops` from `start`, and how many of the pops
/// returned an item.
pub open spec fn replay<T>(start: PriorityQueueModel<T>, ops: Seq<QueueOp<T>>) -> (PriorityQueueModel<T>, nat)
    decreases ops.len(),
{
    if ops.len() == 0 {
        (start, 0)
    } else {
        let (m, k) = replay(start, ops.drop_last());
        match ops.last() {
            QueueOp::Push(item, priority) => (m.pushed(item, priority), k),
            QueueOp::Pop => (m.popped(), if m.front() is Some {
                k + 1
            } else {
                k
            }),
        }
    }
}

/// The number of pushes among `ops`.
pub open spec fn push_count<T>(ops: Seq<QueueOp<T>>) -> nat
    decreases ops.len(),
{
    if ops.len() == 0 {
        0
    } else {
        push_count(ops.drop_last()) + if ops.last() is Push {
            1nat
        } else {
            0nat
        }
    }
}

/// Over any sequence of pushes and pops the queue stays within its bound,
/// keeps its capacity, and every pushed item is still queued, was popped or
/// was dropped: the length is the pushes, less the pops that returned an
/// item, less the drops.
pub proof fn lemma_counts_over_any_sequence<T>(start: PriorityQueueModel<T>, ops: Seq<QueueOp<T>>)
    requires
        start.bounded(),
    ensures
        replay(start, ops).0.bounded(),
        replay(start, ops).0.max_size == start.max_size,
        replay(start, ops).0.len() + replay(start, ops).1 + replay(start, ops).0.dropped == start.len()
            + start.dropped + push_count(ops),
    decreases ops.len(),
{
    if ops.len() > 0 {
        lemma_counts_over_any_sequence(start, ops.drop_last());
        let (m, k) = replay(start, ops.drop_last());
        match ops.last() {
            QueueOp::Push(item, priority) => {
                lemma_bounded_preserved(m, item, priority);
            },
            QueueOp::Pop => {},
        }
    }
}

/// From a new queue of capacity `max_size` (at least one), any sequence of
/// pushes and pops leaves at most `max_size` items, and exactly the pushes
/// less the pops that returned an item less the drops.
pub proof fn lemma_new_queue_counts<T>(max_size: nat, ops: Seq<QueueOp<T>>)
    requires
        max_size >= 1,
    ensures
        ({
            let start = PriorityQueueModel::<T> {
                high: Seq::empty(),
                normal: Seq::empty(),
                low: Seq::empty(),
                max_size,
                dropped: 0,
            };
            &&& replay(start, ops).0.len() <= max_size
            &&& replay(start, ops).0.len() == push_count(ops) - replay(start, ops).1 - replay(
                start,
                ops,
            ).0.dropped
        }),
{
    let start = PriorityQueueModel::<T> {
        high: Seq::empty(),
        normal: Seq::empty(),
        low: Seq::empty(),
        max_size,
        dropped: 0,
    };
    lemma_counts_over_any_sequence(start, ops);
}

/// How the processors are split between the encoding and the frame
/// processing thread pools: half (at least one) encode, the rest process.
pub fn split_thread_pools(cpu_count: usize) -> (r: (usize, usize))
    requires
        cpu_count >= 1,
    ensures
        r.0 == if cpu_count / 2 >= 1 {
            cpu_count / 2
        } else {
            1
        },
        r.0 + r.1 == cpu_count,
        r == split_thread_pools_spec(cpu_count),
{
    let half = cpu_count / 2;
    let encoding_threads = if half >= 1 {
        half
    } else {
        1
    };
    (encoding_threads, cpu_count - encoding_threads)
}

/// The thread pool sizes for this machine.
pub fn streaming_thread_pool_sizes() -> (r: (usize, usize))
    ensures
        r.0 >= 1,
        exists|cpus: usize| cpus >= 1 && #[trigger] split_thread_pools_spec(cpus) == r,
{
    let cpus = processor_count();
    let r = split_thread_pools(cpus);
    assert(split_thread_pools_spec(cpus) == r);
    r
}

/// The split of `split_thread_pools`.
pub open spec fn split_thread_pools_spec(cpu_count: usize) -> (usize, usize) {
    let e = if cpu_count / 2 >= 1 {
        (cpu_count / 2) as usize
    } else {
        1usize
    };
    (e, (cpu_count - e) as usize)
}

} // verus!
