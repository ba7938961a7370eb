//! Bounded message passing structures for the streaming pipeline.
//!
//! The ring buffer hands messages from a producer to a consumer through a
//! power-of-two array of slots with a read and a write position; one slot is
//! always kept free to tell a full buffer from an empty one.

use std::sync::Arc;
use std::time::Instant;
use vstd::hash_map::HashMapWithView;
use vstd::prelude::*;

verus! {

#[verifier::external_type_specification]
#[verifier::external_body]
pub struct ExInstant(Instant);

/// `std::time::Instant::now`: the current time. Nothing is claimed of the
/// value.
#[verifier::external_body]
pub(crate) fn clock_now() -> (t: Instant) {
    Instant::now()
}

/// Nanoseconds since `start` (`Instant::elapsed`, then `as_nanos`), cut to
/// 64 bits. It depends on the clock: nothing is claimed of the value.
#[verifier::external_body]
pub(crate) fn nanos_since(start: &Instant) -> (ns: u64) {
    start.elapsed().as_nanos() as u64
}

/// `Arc::clone`: another pointer to the same value, so the two compare equal.
#[verifier::external_body]
fn share<T>(a: &Arc<T>) -> (r: Arc<T>)
    ensures
        r == *a,
{
    Arc::clone(a)
}

/// The running average after a lookup that took `t` nanoseconds.
pub open spec fn averaged(average: u64, t: u64) -> u64 {
    ((average + t) / 2) as u64
}

/// Registry counters.
#[derive(Debug, Clone, Copy, PartialEq, Eq)]
pub struct RegistryStats {
    pub total_insertions: u64,
    pub total_removals: u64,
    pub lookup_operations: u64,
    pub average_lookup_time_ns: u64,
    pub concurrent_operations: u64,
    pub peak_concurrent_sessions: usize,
}

/// Errors of the session registry; sessions are named by the 128-bit value
/// of their UUID.
#[derive(Debug, Clone, Copy, PartialEq, Eq)]
pub enum RegistryError {
    SessionAlreadyExists(u128),
    SessionNotFound(u128),
    OperationFailed,
}

/// Registry of client sessions keyed by session id.
#[verifier::reject_recursive_types(T)]
pub struct LockFreeSessionRegistry<T> {
    sessions: HashMapWithView<u128, Arc<T>>,
    session_count: usize,
    active_sessions: Vec<(u128, Arc<T>)>,
    stats: RegistryStats,
}

impl<T> View for LockFreeSessionRegistry<T> {
    type V = Map<u128, Arc<T>>;

    closed spec fn view(&self) -> Map<u128, Arc<T>> {
        self.sessions@
    }
}

impl<T> LockFreeSessionRegistry<T> {
    /// The session count agrees with the map, and every registered id is
    /// on the active list.
    pub closed spec fn wf(&self) -> bool {
        &&& self.session_count == self.sessions@.len()
        &&& self.sessions@.dom().finite()
        &&& forall|k: u128|
            #[trigger] self.sessions@.contains_key(k) ==> exists|i: int|
                0 <= i < self.active_sessions@.len() && #[trigger] self.active_sessions@[i].0 == k
    }

    /// Counters of the registry.
    pub closed spec fn spec_stats(&self) -> RegistryStats {
        self.stats
    }

    /// Every session ever inserted, newest first, in the order of insertion.
    pub closed spec fn active_list(&self) -> Seq<(u128, Arc<T>)> {
        self.active_sessions@
    }

    /// An empty registry with zeroed counters.
    pub fn new() -> (r: Self)
        ensures
            r.wf(),
            r@ == Map::<u128, Arc<T>>::empty(),
            r.active_list() == Seq::<(u128, Arc<T>)>::empty(),
            r.spec_stats() == (RegistryStats {
                total_insertions: 0,
                total_removals: 0,
                lookup_operations: 0,
                average_lookup_time_ns: 0,
                concurrent_operations: 0,
                peak_concurrent_sessions: 0,
            }),
    {
        broadcast use vstd::std_specs::hash::group_hash_axioms;
        LockFreeSessionRegistry {
            sessions: HashMapWithView::with_capacity(64),
            session_count: 0,
            active_sessions: Vec::new(),
            stats: RegistryStats {
                total_insertions: 0,
                total_removals: 0,
                lookup_operations: 0,
                average_lookup_time_ns: 0,
                concurrent_operations: 0,
                peak_concurrent_sessions: 0,
            },
        }
    }

    /// Stores `session` under `session_id`. The map takes the new session in
    /// any case; when the id was already present, `SessionAlreadyExists` is
    /// returned and no counter moves. Otherwise the count, the insertion
    /// counter and the peak are updated and the session joins the active
    /// list at its head.
    pub fn insert(&mut self, session_id: u128, session: Arc<T>) -> (r: Result<(), RegistryError>)
        requires
            old(self).wf(),
        ensures
            final(self).wf(),
            final(self)@ == old(self)@.insert(session_id, session),
            old(self)@.contains_key(session_id) ==> {
                &&& r == Err::<(), RegistryError>(RegistryError::SessionAlreadyExists(session_id))
                &&& final(self).spec_stats() == old(self).spec_stats()
                &&& final(self).active_list() == old(self).active_list()
            },
            !old(self)@.contains_key(session_id) ==> {
                &&& r == Ok::<(), RegistryError>(())
                &&& final(self).active_list() == old(self).active_list().insert(
                    0,
                    (session_id, session),
                )
                &&& final(self).spec_stats() == (RegistryStats {
                    total_insertions: bumped(old(self).spec_stats().total_insertions),
                    peak_concurrent_sessions: if final(self)@.len() > old(self).spec_stats().peak_concurrent_sessions {
                        final(self)@.len() as usize
                    } else {
                        old(self).spec_stats().peak_concurrent_sessions
                    },
                    ..old(self).spec_stats()
                })
            },
    {
        let present = self.sessions.contains_key(&session_id);
        self.sessions.insert(session_id, share(&session));
        if present {
            proof {
                assert(self.sessions@.len() == old(self).sessions@.len());
                assert forall|k: u128| #[trigger] self.sessions@.contains_key(k) implies exists|i: int|
                    0 <= i < self.active_sessions@.len() && #[trigger] self.active_sessions@[i].0 == k by {
                    assert(old(self).sessions@.contains_key(k));
                }
            }
            return Err(RegistryError::SessionAlreadyExists(session_id));
        }
        let new_count = self.sessions.len();
        self.session_count = new_count;
        self.stats.total_insertions = self.stats.total_insertions.wrapping_add(1);
        if new_count > self.stats.peak_concurrent_sessions {
            self.stats.peak_concurrent_sessions = new_count;
        }
        let ghost before = self.active_sessions@;
        self.add_to_active_list(session_id, session);
        proof {
            assert forall|k: u128| #[trigger] self.sessions@.contains_key(k) implies exists|i: int|
                0 <= i < self.active_sessions@.len() && #[trigger] self.active_sessions@[i].0 == k by {
                if k == session_id {
                    assert(self.active_sessions@[0].0 == k);
                } else {
                    assert(old(self).sessions@.contains_key(k));
                    let i = choose|i: int| 0 <= i < before.len() && #[trigger] before[i].0 == k;
                    assert(self.active_sessions@[i + 1] == before[i]);
                }
            }
        }
        Ok(())
    }

    /// Puts a session at the head of the active list.
    fn add_to_active_list(&mut self, session_id: u128, session: Arc<T>)
        ensures
            final(self).active_sessions@ == old(self).active_sessions@.insert(
                0,
                (session_id, session),
            ),
            final(self).sessions == old(self).sessions,
            final(self).session_count == old(self).session_count,
            final(self).stats == old(self).stats,
    {
        self.active_sessions.insert(0, (session_id, session));
    }

    /// Takes the session stored under `session_id` out of the registry, if
    /// there is one, and counts the removal.
    pub fn remove(&mut self, session_id: &u128) -> (r: Option<Arc<T>>)
        requires
            old(self).wf(),
        ensures
            final(self).wf(),
            final(self)@ == old(self)@.remove(*session_id),
            final(self).active_list() == old(self).active_list(),
            old(self)@.contains_key(*session_id) ==> {
                &&& r == Some(old(self)@[*session_id])
                &&& final(self).spec_stats() == (RegistryStats {
                    total_removals: bumped(old(self).spec_stats().total_removals),
                    ..old(self).spec_stats()
                })
            },
            !old(self)@.contains_key(*session_id) ==> {
                &&& r == None::<Arc<T>>
                &&& final(self).spec_stats() == old(self).spec_stats()
            },
    {
        let removed = self.sessions.remove(session_id);
        if removed.is_some() {
            self.session_count = self.session_count - 1;
            self.stats.total_removals = self.stats.total_removals.wrapping_add(1);
        }
        proof {
            assert forall|k: u128| #[trigger] self.sessions@.contains_key(k) implies exists|i: int|
                0 <= i < self.active_sessions@.len() && #[trigger] self.active_sessions@[i].0 == k by {
                assert(old(self).sessions@.contains_key(k));
                let i = choose|i: int|
                    0 <= i < old(self).active_sessions@.len() && #[trigger] old(self).active_sessions@[i].0 == k;
                assert(self.active_sessions@[i].0 == k);
            }
        }
        removed
    }

    /// Looks up a session. The lookup is counted, and the time it took is
    /// averaged into `average_lookup_time_ns` with the previous average.
    pub fn get(&mut self, session_id: &u128) -> (r: Option<Arc<T>>)
        requires
            old(self).wf(),
        ensures
            final(self).wf(),
            final(self)@ == old(self)@,
            final(self).active_list() == old(self).active_list(),
            r == (if old(self)@.contains_key(*session_id) {
                Some(old(self)@[*session_id])
            } else {
                None
            }),
            final(self).spec_stats() == (RegistryStats {
                lookup_operations: bumped(old(self).spec_stats().lookup_operations),
                average_lookup_time_ns: final(self).spec_stats().average_lookup_time_ns,
                ..old(self).spec_stats()
            }),
            exists|t: u64|
                final(self).spec_stats().average_lookup_time_ns == #[trigger] averaged(
                    old(self).spec_stats().average_lookup_time_ns,
                    t,
                ),
    {
        let start_time = clock_now();
        self.stats.lookup_operations = self.stats.lookup_operations.wrapping_add(1);
        let result = match self.sessions.get(session_id) {
            Some(s) => Some(share(s)),
            None => None,
        };
        let lookup_time_ns = nanos_since(&start_time);
        let sum: u128 = self.stats.average_lookup_time_ns as u128 + lookup_time_ns as u128;
        self.stats.average_lookup_time_ns = (sum / 2) as u64;
        assert(self.spec_stats().average_lookup_time_ns == averaged(
            old(self).spec_stats().average_lookup_time_ns,
            lookup_time_ns,
        ));
        proof {
            assert forall|k: u128| #[trigger] self.sessions@.contains_key(k) implies exists|i: int|
                0 <= i < self.active_sessions@.len() && #[trigger] self.active_sessions@[i].0 == k by {
                assert(old(self).sessions@.contains_key(k));
                let i = choose|i: int|
                    0 <= i < old(self).active_sessions@.len() && #[trigger] old(self).active_sessions@[i].0 == k;
                assert(self.active_sessions@[i].0 == k);
            }
        }
        result
    }

    /// Whether `listed` holds a session of `id`.
    fn is_listed(listed: &Vec<(u128, Arc<T>)>, id: u128) -> (b: bool)
        ensures
            b == exists|i: int| 0 <= i < listed@.len() && #[trigger] listed@[i].0 == id,
    {
        let mut i: usize = 0;
        while i < listed.len()
            invariant
                i <= listed@.len(),
                forall|j: int| 0 <= j < i ==> #[trigger] listed@[j].0 != id,
            decreases listed@.len() - i,
        {
            if listed[i].0 == id {
                return true;
            }
            i = i + 1;
        }
        false
    }

    /// Every registered session with its id, each once, in no set order.
    pub fn get_all_sessions(&self) -> (r: Vec<(u128, Arc<T>)>)
        requires
            self.wf(),
        ensures
            forall|i: int, j: int|
                0 <= i < r@.len() && 0 <= j < r@.len() && i != j ==> #[trigger] r@[i].0 != #[trigger] r@[j].0,
            forall|i: int|
                0 <= i < r@.len() ==> self@.contains_key(#[trigger] r@[i].0) && r@[i].1 == self@[r@[i].0],
            forall|k: u128| #[trigger] self@.contains_key(k) ==> exists|i: int| 0 <= i < r@.len() && #[trigger] r@[i].0 == k,
    {
        let mut listed: Vec<(u128, Arc<T>)> = Vec::new();
        let mut i: usize = 0;
        while i < self.active_sessions.len()
            invariant
                self.wf(),
                i <= self.active_sessions@.len(),
                forall|a: int, b: int|
                    0 <= a < listed@.len() && 0 <= b < listed@.len() && a != b ==> #[trigger] listed@[a].0
                        != #[trigger] listed@[b].0,
                forall|a: int|
                    0 <= a < listed@.len() ==> self.sessions@.contains_key(#[trigger] listed@[a].0)
                        && listed@[a].1 == self.sessions@[listed@[a].0],
                forall|j: int|
                    0 <= j < i && self.sessions@.contains_key(#[trigger] self.active_sessions@[j].0)
                        ==> exists|a: int| 0 <= a < listed@.len() && #[trigger] listed@[a].0 == self.active_sessions@[j].0,
            decreases self.active_sessions@.len() - i,
        {
            let id = self.active_sessions[i].0;
            if !Self::is_listed(&listed, id) {
                match self.sessions.get(&id) {
                    Some(s) => {
                        let ghost before = listed@;
                        listed.push((id, share(s)));
                        proof {
                            assert(listed@[before.len() as int].0 == id);
                            assert forall|j: int|
                                0 <= j < i + 1 && self.sessions@.contains_key(#[trigger] self.active_sessions@[j].0)
                                    implies exists|a: int| 0 <= a < listed@.len() && #[trigger] listed@[a].0 == self.active_sessions@[j].0 by {
                                if j < i {
                                    let a = choose|a: int| 0 <= a < before.len() && #[trigger] before[a].0 == self.active_sessions@[j].0;
                                    assert(listed@[a] == before[a]);
                                } else {
                                    assert(listed@[before.len() as int].0 == self.active_sessions@[j].0);
                                }
                            }
                        }
                    },
                    None => {},
                }
            }
            i = i + 1;
        }
        proof {
            assert forall|k: u128| #[trigger] self@.contains_key(k) implies exists|a: int| 0 <= a < listed@.len() && #[trigger] listed@[a].0 == k by {
                assert(self.sessions@.contains_key(k));
                let j = choose|j: int| 0 <= j < self.active_sessions@.len() && #[trigger] self.active_sessions@[j].0 == k;
                assert(self.sessions@.contains_key(self.active_sessions@[j].0));
            }
        }
        listed
    }

    /// The number of sessions.
    pub fn len(&self) -> (n: usize)
        requires
            self.wf(),
        ensures
            n == self@.len(),
    {
        self.session_count
    }

    /// Whether no session is registered.
    pub fn is_empty(&self) -> (b: bool)
        requires
            self.wf(),
        ensures
            b == (self@.len() == 0),
    {
        self.len() == 0
    }

    /// The registry's counters.
    pub fn get_stats(&self) -> (s: RegistryStats)
        ensures
            s == self.spec_stats(),
    {
        self.stats
    }
}

/// A lookup after an insert gives back the session just stored under that
/// id, other ids keep their sessions, and after a removal the id is gone.
pub proof fn lemma_registry_read_after_write<T>(
    sessions: Map<u128, Arc<T>>,
    id: u128,
    session: Arc<T>,
    other: u128,
)
    ensures
        sessions.insert(id, session).contains_key(id),
        sessions.insert(id, session)[id] == session,
        other != id ==> sessions.insert(id, session).contains_key(other) == sessions.contains_key(
            other,
        ),
        other != id && sessions.contains_key(other) ==> sessions.insert(id, session)[other]
            == sessions[other],
        !sessions.remove(id).contains_key(id),
{
}

/// Whether `n` is a power of two.
pub open spec fn is_pow2(n: nat) -> bool
    decreases n,
{
    if n == 1 {
        true
    } else if n < 1 || n % 2 == 1 {
        false
    } else {
        is_pow2(n / 2)
    }
}

/// `c` is the smallest power of two that is at least `n` (1 for 0), the
/// value of `usize::next_power_of_two`.
pub open spec fn is_next_pow2(c: nat, n: nat) -> bool {
    &&& is_pow2(c)
    &&& c >= n
    &&& (c == 1 || c / 2 < n)
}

/// The smallest power of two that is at least `n`, by doubling from one.
pub fn next_power_of_two(n: usize) -> (c: usize)
    requires
        n <= usize::MAX / 2 + 1,
    ensures
        is_next_pow2(c as nat, n as nat),
{
    let mut p: usize = 1;
    while p < n
        invariant
            n <= usize::MAX / 2 + 1,
            is_pow2(p as nat),
            p == 1 || p / 2 < n,
            p >= 1,
        decreases usize::MAX - p,
    {
        assert((2 * p as nat) / 2 == p as nat);
        p = p * 2;
    }
    p
}

/// A counter after one more event: one more, wrapping to zero after the largest
/// value, as an atomic `fetch_add` does.
pub open spec fn bumped(x: u64) -> u64 {
    if x == u64::MAX {
        0
    } else {
        (x + 1) as u64
    }
}

/// The slot after `pos` in a ring of `capacity` slots.
pub open spec fn next_slot(pos: int, capacity: int) -> int {
    if pos + 1 == capacity {
        0
    } else {
        pos + 1
    }
}

/// Errors of the ring buffer.
#[derive(Debug, Clone, Copy, PartialEq, Eq)]
pub enum RingBufferError {
    /// No free slot is left for another message.
    BufferFull,
    /// No message is waiting.
    BufferEmpty,
    /// No message arrived before the deadline.
    Timeout,
}

/// Ring buffer counters.
#[derive(Debug, Clone, Copy, PartialEq, Eq)]
pub struct RingBufferStats {
    pub messages_sent: u64,
    pub messages_received: u64,
    pub buffer_full_events: u64,
    pub buffer_empty_events: u64,
    pub peak_utilization: usize,
}

/// Model of a ring buffer: the waiting messages, oldest first, and the slot
/// count.
pub struct RingBufferModel<T> {
    pub messages: Seq<T>,
    pub capacity: nat,
}

/// Bounded FIFO ring buffer for message passing between pipeline stages.
pub struct LockFreeRingBuffer<T> {
    buffer: Vec<Option<T>>,
    capacity: usize,
    write_pos: usize,
    read_pos: usize,
    stats: RingBufferStats,
    messages: Ghost<Seq<T>>,
}

impl<T> View for LockFreeRingBuffer<T> {
    type V = RingBufferModel<T>;

    closed spec fn view(&self) -> RingBufferModel<T> {
        RingBufferModel { messages: self.messages@, capacity: self.capacity as nat }
    }
}

impl<T> LockFreeRingBuffer<T> {
    /// The number of occupied slots between `read` and `write`.
    pub open spec fn occupied(read: int, write: int, capacity: int) -> int {
        if write >= read {
            write - read
        } else {
            capacity - read + write
        }
    }

    /// Well-formedness: the slot `d` places past the read position holds the
    /// `d`-th waiting message, or nothing once `d` reaches their number.
    pub closed spec fn wf(&self) -> bool {
        &&& is_pow2(self.capacity as nat)
        &&& self.buffer.len() == self.capacity
        &&& self.read_pos < self.capacity
        &&& self.write_pos < self.capacity
        &&& self.messages@.len() == Self::occupied(
            self.read_pos as int,
            self.write_pos as int,
            self.capacity as int,
        )
        &&& forall|j: int|
            0 <= j < self.capacity ==> #[trigger] self.buffer@[j] == Self::slot_content(
                self.messages@,
                Self::occupied(self.read_pos as int, j, self.capacity as int),
            )
        &&& self.stats.peak_utilization < self.capacity
    }

    /// What a slot holds when it lies `d` places past the read position.
    pub open spec fn slot_content(messages: Seq<T>, d: int) -> Option<T> {
        if d < messages.len() {
            Some(messages[d])
        } else {
            None
        }
    }

    /// Counters of the buffer.
    pub closed spec fn spec_stats(&self) -> RingBufferStats {
        self.stats
    }

    /// An empty buffer with `capacity` rounded up to a power of two slots, of
    /// which one is kept free.
    pub fn new(capacity: usize) -> (rb: Self)
        requires
            capacity <= usize::MAX / 2 + 1,
        ensures
            rb.wf(),
            rb@.messages == Seq::<T>::empty(),
            is_next_pow2(rb@.capacity, capacity as nat),
            rb.spec_stats() == (RingBufferStats {
                messages_sent: 0,
                messages_received: 0,
                buffer_full_events: 0,
                buffer_empty_events: 0,
                peak_utilization: 0,
            }),
    {
        let capacity = next_power_of_two(capacity);
        let mut buffer: Vec<Option<T>> = Vec::new();
        while buffer.len() < capacity
            invariant
                buffer.len() <= capacity,
                forall|j: int| 0 <= j < buffer.len() ==> #[trigger] buffer@[j] is None,
            decreases capacity - buffer.len(),
        {
            buffer.push(None);
        }
        LockFreeRingBuffer {
            buffer,
            capacity,
            write_pos: 0,
            read_pos: 0,
            stats: RingBufferStats {
                messages_sent: 0,
                messages_received: 0,
                buffer_full_events: 0,
                buffer_empty_events: 0,
                peak_utilization: 0,
            },
            messages: Ghost(Seq::empty()),
        }
    }
}


impl<T> LockFreeRingBuffer<T> {
    /// Sends `item`: it becomes the newest waiting message, unless all
    /// usable slots (capacity minus one) are taken, in which case the item is
    /// dropped and `BufferFull` returned.
    pub fn send(&mut self, item: T) -> (r: Result<(), RingBufferError>)
        requires
            old(self).wf(),
        ensures
            final(self).wf(),
            final(self)@.capacity == old(self)@.capacity,
            old(self)@.messages.len() + 1 == old(self)@.capacity ==> {
                &&& r == Err::<(), RingBufferError>(RingBufferError::BufferFull)
                &&& final(self)@.messages == old(self)@.messages
                &&& final(self).spec_stats() == (RingBufferStats {
                    buffer_full_events: bumped(old(self).spec_stats().buffer_full_events),
                    ..old(self).spec_stats()
                })
            },
            old(self)@.messages.len() + 1 < old(self)@.capacity ==> {
                &&& r == Ok::<(), RingBufferError>(())
                &&& final(self)@.messages == old(self)@.messages.push(item)
                &&& final(self).spec_stats() == (RingBufferStats {
                    messages_sent: bumped(old(self).spec_stats().messages_sent),
                    peak_utilization: if final(self)@.messages.len() > old(self).spec_stats().peak_utilization {
                        final(self)@.messages.len() as usize
                    } else {
                        old(self).spec_stats().peak_utilization
                    },
                    ..old(self).spec_stats()
                })
            },
    {
        let write_pos = self.write_pos;
        let read_pos = self.read_pos;
        let next_write = if write_pos + 1 == self.capacity {
            0
        } else {
            write_pos + 1
        };
        if next_write == read_pos {
            self.stats.buffer_full_events = self.stats.buffer_full_events.wrapping_add(1);
            return Err(RingBufferError::BufferFull);
        }
        let ghost old_msgs = self.messages@;
        let ghost cap = self.capacity as int;
        self.buffer.set(write_pos, Some(item));
        self.write_pos = next_write;
        self.messages = Ghost(self.messages@.push(item));
        self.stats.messages_sent = self.stats.messages_sent.wrapping_add(1);
        let utilization = if next_write >= read_pos {
            next_write - read_pos
        } else {
            self.capacity - read_pos + next_write
        };
        if utilization > self.stats.peak_utilization {
            self.stats.peak_utilization = utilization;
        }
        proof {
            assert forall|j: int| 0 <= j < cap implies #[trigger] self.buffer@[j]
                == Self::slot_content(
                self.messages@,
                Self::occupied(read_pos as int, j, cap),
            ) by {
                if j != write_pos as int {
                    let d = Self::occupied(read_pos as int, j, cap);
                    if d < old_msgs.len() {
                        assert(self.messages@[d] == old_msgs[d]);
                    }
                }
            }
        }
        Ok(())
    }

    /// Receives the oldest waiting message, or `BufferEmpty` when none waits.
    pub fn recv(&mut self) -> (r: Result<T, RingBufferError>)
        requires
            old(self).wf(),
        ensures
            final(self).wf(),
            final(self)@.capacity == old(self)@.capacity,
            old(self)@.messages.len() == 0 ==> {
                &&& r == Err::<T, RingBufferError>(RingBufferError::BufferEmpty)
                &&& final(self)@.messages == old(self)@.messages
                &&& final(self).spec_stats() == (RingBufferStats {
                    buffer_empty_events: bumped(old(self).spec_stats().buffer_empty_events),
                    ..old(self).spec_stats()
                })
            },
            old(self)@.messages.len() > 0 ==> {
                &&& r == Ok::<T, RingBufferError>(old(self)@.messages[0])
                &&& final(self)@.messages == old(self)@.messages.drop_first()
                &&& final(self).spec_stats() == (RingBufferStats {
                    messages_received: bumped(old(self).spec_stats().messages_received),
                    ..old(self).spec_stats()
                })
            },
    {
        let read_pos = self.read_pos;
        let write_pos = self.write_pos;
        if read_pos == write_pos {
            self.stats.buffer_empty_events = self.stats.buffer_empty_events.wrapping_add(1);
            return Err(RingBufferError::BufferEmpty);
        }
        let ghost old_msgs = self.messages@;
        let ghost cap = self.capacity as int;
        proof {
            assert(Self::occupied(read_pos as int, read_pos as int, cap) == 0);
            assert(self.buffer@[read_pos as int] == Some(old_msgs[0]));
        }
        let mut taken: Option<T> = None;
        std::mem::swap(&mut taken, &mut self.buffer[read_pos]);
        let next_read = if read_pos + 1 == self.capacity {
            0
        } else {
            read_pos + 1
        };
        self.read_pos = next_read;
        self.messages = Ghost(self.messages@.drop_first());
        self.stats.messages_received = self.stats.messages_received.wrapping_add(1);
        proof {
            assert forall|j: int| 0 <= j < cap implies #[trigger] self.buffer@[j]
                == Self::slot_content(
                self.messages@,
                Self::occupied(next_read as int, j, cap),
            ) by {
                if j != read_pos as int {
                    let d = Self::occupied(read_pos as int, j, cap);
                    assert(Self::occupied(next_read as int, j, cap) == d - 1);
                    if d < old_msgs.len() {
                        assert(self.messages@[d - 1] == old_msgs[d]);
                    }
                }
            }
        }
        match taken {
            Some(item) => Ok(item),
            None => Err(RingBufferError::BufferEmpty),
        }
    }

    /// The buffer's counters.
    pub fn get_stats(&self) -> (s: RingBufferStats)
        ensures
            s == self.spec_stats(),
    {
        self.stats
    }
}

/// One slot stays free: a well-formed buffer never holds as many messages as
/// it has slots.
pub proof fn lemma_ring_capacity<T>(rb: &LockFreeRingBuffer<T>)
    requires
        rb.wf(),
    ensures
        rb@.messages.len() < rb@.capacity,
{
}

/// First in, first out: sending does not change which message a receive
/// returns next, and the sent message lands behind all that were waiting.
pub proof fn lemma_ring_fifo<T>(waiting: Seq<T>, item: T)
    ensures
        waiting.len() > 0 ==> waiting.push(item)[0] == waiting[0],
        waiting.len() > 0 ==> waiting.push(item).drop_first() == waiting.drop_first().push(
            item,
        ),
        waiting.len() == 0 ==> waiting.push(item)[0] == item && waiting.push(item).drop_first()
            == waiting,
{
    if waiting.len() > 0 {
        assert(waiting.push(item).drop_first() =~= waiting.drop_first().push(item));
    } else {
        assert(waiting.push(item).drop_first() =~= waiting);
    }
}

/// A value held in a slot taken from a [`LockFreeMemoryPool`]; handing it
/// back to the pool frees the slot.
pub struct PooledItem<T> {
    value: T,
}

impl<T> PooledItem<T> {
    /// The held value.
    pub closed spec fn value(&self) -> T {
        self.value
    }

    /// The held value.
    pub fn get(&self) -> (r: &T)
        ensures
            *r == self.value(),
    {
        &self.value
    }

    /// The held value, for writing.
    pub fn get_mut(&mut self) -> (r: &mut T)
        ensures
            *r == old(self).value(),
            final(self).value() == *final(r),
    {
        &mut self.value
    }
}

/// Pool of a fixed number of slots for values of type `T`: `allocate` takes a
/// free slot, `deallocate` returns it.
pub struct LockFreeMemoryPool<T> {
    free_slots: usize,
    allocated_count: usize,
    total_allocations: u64,
    pool_size: usize,
    phantom: Ghost<Option<T>>,
}

impl<T> LockFreeMemoryPool<T> {
    /// Every slot is either free or allocated.
    pub closed spec fn wf(&self) -> bool {
        self.free_slots + self.allocated_count == self.pool_size
    }

    /// Slots handed out and not yet returned.
    pub closed spec fn allocated(&self) -> nat {
        self.allocated_count as nat
    }

    /// Number of slots the pool was made with.
    pub closed spec fn size(&self) -> nat {
        self.pool_size as nat
    }

    /// Allocations made so far, counted modulo 2^64.
    pub closed spec fn allocations(&self) -> u64 {
        self.total_allocations
    }

    /// A pool with `initial_size` free slots.
    pub fn new(initial_size: usize) -> (p: Self)
        ensures
            p.wf(),
            p.size() == initial_size,
            p.allocated() == 0,
            p.allocations() == 0,
    {
        LockFreeMemoryPool {
            free_slots: initial_size,
            allocated_count: 0,
            total_allocations: 0,
            pool_size: initial_size,
            phantom: Ghost(None),
        }
    }

    /// Places `value` in a free slot, or returns `None` when every slot is
    /// taken.
    pub fn allocate(&mut self, value: T) -> (r: Option<PooledItem<T>>)
        requires
            old(self).wf(),
        ensures
            final(self).wf(),
            final(self).size() == old(self).size(),
            old(self).allocated() < old(self).size() ==> {
                &&& r matches Some(item) && item.value() == value
                &&& final(self).allocated() == old(self).allocated() + 1
                &&& final(self).allocations() == bumped(old(self).allocations())
            },
            old(self).allocated() == old(self).size() ==> {
                &&& r is None
                &&& final(self).allocated() == old(self).allocated()
                &&& final(self).allocations() == old(self).allocations()
            },
    {
        if self.free_slots == 0 {
            return None;
        }
        self.free_slots = self.free_slots - 1;
        self.allocated_count = self.allocated_count + 1;
        self.total_allocations = self.total_allocations.wrapping_add(1);
        Some(PooledItem { value })
    }

    /// Returns the slot of `item` to the pool; the value is dropped.
    pub fn deallocate(&mut self, item: PooledItem<T>)
        requires
            old(self).wf(),
            old(self).allocated() > 0,
        ensures
            final(self).wf(),
            final(self).size() == old(self).size(),
            final(self).allocated() == old(self).allocated() - 1,
            final(self).allocations() == old(self).allocations(),
    {
        self.free_slots = self.free_slots + 1;
        self.allocated_count = self.allocated_count - 1;
    }

    /// Slots in use, slots in all, allocations made.
    pub fn stats(&self) -> (r: (usize, usize, u64))
        ensures
            r == (self.allocated() as usize, self.size() as usize, self.allocations()),
    {
        (self.allocated_count, self.pool_size, self.total_allocations)
    }
}

} // verus!
