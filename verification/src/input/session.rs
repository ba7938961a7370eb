//! The input sessions of connected clients: their player slots, mappings
//! and idle time, the adapter their commands go through, and the counters
//! of the input layer.

use crate::error::InputError;
use crate::input::dolphin::DolphinInputAdapter;
use crate::input::mapping::{is_preset, profile_for, ControllerMapping, GameProfile, MappingPreset};
use crate::input::processor::{
    convert_buttons, button_commands, ButtonLayout, CommandBuffer, DigitalCommand, ProcessorStats,
};
use crate::streaming::lock_free::{clock_now, nanos_since};
use crate::streaming::moonlight::ControllerInput;
use vstd::prelude::*;

verus! {

/// A touch on the client's screen.
#[derive(Debug, Clone, Copy, PartialEq, Eq)]
pub struct TouchPoint {
    pub x: u16,
    pub y: u16,
    pub pressure: u8,
}

/// Counters of the input layer.
#[derive(Debug, Clone, Copy, PartialEq, Eq)]
pub struct InputStats {
    pub active_sessions: usize,
    pub total_sessions: usize,
    pub processor_stats: ProcessorStats,
}

/// Whether an active session holds `slot`; sessions are given by their slot
/// and whether they are active.
pub open spec fn slot_taken(sessions: Seq<(u8, bool)>, slot: u8) -> bool {
    exists|i: int| 0 <= i < sessions.len() && #[trigger] sessions[i] == (slot, true)
}

/// The slot for a new session: the first of 1 to 4 that no active session
/// holds, or 1 when all are held.
pub open spec fn free_slot(sessions: Seq<(u8, bool)>) -> u8 {
    if !slot_taken(sessions, 1) {
        1
    } else if !slot_taken(sessions, 2) {
        2
    } else if !slot_taken(sessions, 3) {
        3
    } else if !slot_taken(sessions, 4) {
        4
    } else {
        1
    }
}

/// Whether an active session holds `slot`.
fn is_slot_taken(sessions: &Vec<(u8, bool)>, slot: u8) -> (b: bool)
    ensures
        b == slot_taken(sessions@, slot),
{
    let mut i: usize = 0;
    while i < sessions.len()
        invariant
            i <= sessions.len(),
            forall|k: int| 0 <= k < i ==> #[trigger] sessions@[k] != (slot, true),
        decreases sessions.len() - i,
    {
        let (s, active) = sessions[i];
        if s == slot && active {
            assert(sessions@[i as int] == (slot, true));
            return true;
        }
        i = i + 1;
    }
    false
}

/// The slot for a new session.
pub fn assign_player_slot(sessions: &Vec<(u8, bool)>) -> (slot: u8)
    ensures
        slot == free_slot(sessions@),
        1 <= slot <= 4,
{
    let mut slot: u8 = 1;
    while slot <= 4
        invariant
            1 <= slot <= 5,
            forall|s: u8| 1 <= s < slot ==> #[trigger] slot_taken(sessions@, s),
        decreases 5 - slot,
    {
        if !is_slot_taken(sessions, slot) {
            return slot;
        }
        slot = slot + 1;
    }
    1
}

/// The number of active sessions.
pub fn count_active(sessions: &Vec<(u8, bool)>) -> (n: usize)
    ensures
        n == sessions@.filter(|s: (u8, bool)| s.1).len(),
{
    let mut n: usize = 0;
    let mut i: usize = 0;
    while i < sessions.len()
        invariant
            i <= sessions.len(),
            n == sessions@.take(i as int).filter(|s: (u8, bool)| s.1).len(),
            n <= i,
        decreases sessions.len() - i,
    {
        proof {
            let t = sessions@.take(i + 1);
            assert(t.drop_last() =~= sessions@.take(i as int));
            reveal_with_fuel(Seq::filter, 1);
        }
        if sessions[i].1 {
            n = n + 1;
        }
        i = i + 1;
    }
    assert(sessions@.take(sessions@.len() as int) =~= sessions@);
    n
}

/// Seconds without input after which a session is dropped.
pub const SESSION_TIMEOUT_SECS: u64 = 30;

/// The input session of one client. `last_input_secs` is in seconds since
/// 1970.
#[derive(Debug)]
pub struct ClientInputSession {
    pub id: u128,
    pub mapping: ControllerMapping,
    pub player_slot: u8,
    pub last_input_secs: u64,
    pub is_active: bool,
}

/// The slot and activity of each session.
pub open spec fn slot_view(sessions: Seq<ClientInputSession>) -> Seq<(u8, bool)> {
    sessions.map_values(|c: ClientInputSession| (c.player_slot, c.is_active))
}

/// Whether a session with `id` is in `sessions`.
pub open spec fn has_session(sessions: Seq<ClientInputSession>, id: u128) -> bool {
    exists|i: int| 0 <= i < sessions.len() && #[trigger] sessions[i].id == id
}

/// No two sessions share an id.
pub open spec fn ids_unique(sessions: Seq<ClientInputSession>) -> bool {
    forall|i: int, j: int|
        0 <= i < sessions.len() && 0 <= j < sessions.len() && i != j ==> #[trigger] sessions[i].id
            != #[trigger] sessions[j].id
}

/// Whether `after` and `r` are what unplugging the controller of `slot`
/// from `before` gives: the slot is left empty, a plugged controller is
/// taken out and the command that says so is booked.
/// Whether no idle session at time `now` has its controller among
/// `controllers`.
pub open spec fn no_idle_plugged(sessions: Seq<ClientInputSession>, controllers: Seq<u8>, now: u64) -> bool {
    forall|k: int|
        0 <= k < sessions.len() && idle(sessions[k], now) ==> !controllers.contains(
            #[trigger] sessions[k].player_slot,
        )
}

pub open spec fn unplugged(
    before: DolphinInputAdapter,
    after: DolphinInputAdapter,
    slot: u8,
    r: Result<(), InputError>,
) -> bool {
    &&& after.wf()
    &&& before.controllers().contains(slot) ==> {
        &&& exists|i: int|
            0 <= i < before.controllers().len() && #[trigger] before.controllers()[i] == slot
                && after.controllers() == before.controllers().remove(i)
        &&& crate::input::dolphin::send_booked(before.has_pipe(), before.health(), after.health(), r)
    }
    &&& !before.controllers().contains(slot) ==> r is Ok && after.health() == before.health()
        && after.controllers() == before.controllers()
    &&& !after.controllers().contains(slot)
    &&& after.has_pipe() == before.has_pipe()
    &&& after.has_process() == before.has_process()
    &&& after.active() == before.active()
}

/// Whether `s` has had no input for longer than the timeout at `now`.
pub open spec fn idle(s: ClientInputSession, now: u64) -> bool {
    now >= s.last_input_secs && now - s.last_input_secs > SESSION_TIMEOUT_SECS
}

/// The sessions kept at `now`.
pub open spec fn live_at(now: u64) -> spec_fn(ClientInputSession) -> bool {
    |s: ClientInputSession| !idle(s, now)
}

/// The sessions dropped at `now`.
pub open spec fn idle_at(now: u64) -> spec_fn(ClientInputSession) -> bool {
    |s: ClientInputSession| idle(s, now)
}

/// `s`, marked inactive when it is idle at `now`.
pub open spec fn marked_at(s: ClientInputSession, now: u64) -> ClientInputSession {
    if idle(s, now) {
        ClientInputSession { is_active: false, ..s }
    } else {
        s
    }
}

/// Packets taken from one session in one round at most.
pub const MAX_PACKETS_PER_ROUND: usize = 10;

/// Commands handed to the emulator in one batch at most.
pub const COMMAND_BATCH_SIZE: usize = 20;

/// Commands waiting for the emulator at most; past this the oldest are
/// dropped.
pub const COMMAND_BUFFER_CAPACITY: usize = 1000;

/// The buttons of a mapping.
pub open spec fn layout_of(m: ControllerMapping) -> ButtonLayout {
    ButtonLayout {
        a_button: m.a_button,
        b_button: m.b_button,
        x_button: m.x_button,
        y_button: m.y_button,
        z_button: m.z_button,
        l_button: m.l_button,
        r_button: m.r_button,
        start_button: m.start_button,
    }
}

/// The button and D-pad commands of `packets` in order, for the player in
/// `slot` with the buttons of `layout`; a packet's button flags are the low
/// 16 bits of its buttons.
pub open spec fn packet_commands(slot: u8, layout: ButtonLayout, packets: Seq<ControllerInput>) -> Seq<DigitalCommand>
    decreases packets.len(),
{
    if packets.len() == 0 {
        Seq::empty()
    } else {
        packet_commands(slot, layout, packets.drop_last()) + button_commands(
            slot,
            layout,
            packets.last().buttons as u16,
        )
    }
}

/// The number of packets one round takes of `packets`.
pub open spec fn round_taken(packets: Seq<ControllerInput>) -> nat {
    if packets.len() < MAX_PACKETS_PER_ROUND {
        packets.len()
    } else {
        MAX_PACKETS_PER_ROUND as nat
    }
}

/// The commands of the packets one round takes, for session `c`.
pub open spec fn round_commands(c: ClientInputSession, packets: Seq<ControllerInput>) -> Seq<DigitalCommand> {
    packet_commands(c.player_slot, layout_of(c.mapping), packets.take(round_taken(packets) as int))
}

/// The session of `id` among `sessions` (one with that id, where there is
/// one).
pub open spec fn session_of(sessions: Seq<ClientInputSession>, id: u128) -> ClientInputSession {
    sessions[choose|i: int| 0 <= i < sessions.len() && sessions[i].id == id]
}

/// The packets a round for `id` takes of `packets`: none for a session
/// that is not there.
pub open spec fn round_count(sessions: Seq<ClientInputSession>, id: u128, packets: Seq<ControllerInput>) -> nat {
    if has_session(sessions, id) {
        round_taken(packets)
    } else {
        0
    }
}

/// The commands a round for `id` adds to the buffer.
pub open spec fn round_input(sessions: Seq<ClientInputSession>, id: u128, packets: Seq<ControllerInput>) -> Seq<
    DigitalCommand,
> {
    if has_session(sessions, id) {
        round_commands(session_of(sessions, id), packets)
    } else {
        Seq::empty()
    }
}

/// How many of the oldest commands a buffer of `COMMAND_BUFFER_CAPACITY`
/// drops when `total` have gone into it.
pub open spec fn overflow(total: nat) -> nat {
    if total > COMMAND_BUFFER_CAPACITY {
        (total - COMMAND_BUFFER_CAPACITY) as nat
    } else {
        0
    }
}

/// What a buffer keeps of `all`: the newest `COMMAND_BUFFER_CAPACITY`.
pub open spec fn kept(all: Seq<DigitalCommand>) -> Seq<DigitalCommand> {
    all.skip(overflow(all.len()) as int)
}

/// The size of the batch taken from `waiting`.
pub open spec fn batch_len(waiting: Seq<DigitalCommand>) -> nat {
    if waiting.len() < COMMAND_BATCH_SIZE {
        waiting.len()
    } else {
        COMMAND_BATCH_SIZE as nat
    }
}

/// A counter after `n` more events, modulo 2^64.
pub open spec fn advanced(x: u64, n: nat) -> u64 {
    ((x + n) % 0x1_0000_0000_0000_0000) as u64
}

/// The packets processed, the total processing time and its average.
pub open spec fn packet_counters(s: ProcessorStats) -> (u64, u64, u64) {
    (s.packets_processed, s.total_processing_time_ns, s.average_processing_time_ns)
}

/// Whether `after`'s packet and time counters are `before`'s after
/// `packets` packets took some time.
pub open spec fn timed_from(before: ProcessorStats, after: ProcessorStats, packets: nat) -> bool {
    exists|t: u64| packet_counters(after) == packet_counters(#[trigger] timed(before, packets, t))
}

/// The packet and time counters after `packets` packets took `t`
/// nanoseconds; the command counters are left as they are.
pub open spec fn timed(s: ProcessorStats, packets: nat, t: u64) -> ProcessorStats {
    if packets == 0 {
        s
    } else {
        let processed = advanced(s.packets_processed, packets);
        let total = advanced(s.total_processing_time_ns, t as nat);
        ProcessorStats {
            packets_processed: processed,
            total_processing_time_ns: total,
            average_processing_time_ns: if processed > 0 {
                (total / processed) as u64
            } else {
                s.average_processing_time_ns
            },
            ..s
        }
    }
}

/// Where a saved profile for a game stands: there is none, it could not be
/// read, or it was read.
#[derive(Debug)]
pub enum StoredProfile {
    Missing,
    Unreadable,
    Loaded(GameProfile),
}

/// The input sessions of the connected clients, keyed by session id, with
/// the mapping new sessions start from, the adapter that carries their
/// commands to the emulator, and the commands waiting to be sent.
pub struct ServerInputManager {
    sessions: Vec<ClientInputSession>,
    dolphin_adapter: DolphinInputAdapter,
    global_mapping: ControllerMapping,
    command_buffer: CommandBuffer<DigitalCommand>,
    processor_stats: ProcessorStats,
}

impl ServerInputManager {
    /// The sessions, in the order they were registered.
    pub closed spec fn sessions(&self) -> Seq<ClientInputSession> {
        self.sessions@
    }

    pub closed spec fn adapter(&self) -> DolphinInputAdapter {
        self.dolphin_adapter
    }

    /// The mapping a new session starts from.
    pub closed spec fn global_mapping(&self) -> ControllerMapping {
        self.global_mapping
    }

    /// The counters of input processing; the sent and dropped commands are
    /// those of the command buffer.
    pub closed spec fn spec_processor_stats(&self) -> ProcessorStats {
        ProcessorStats {
            commands_sent: self.command_buffer.sent(),
            commands_dropped: self.command_buffer.dropped(),
            ..self.processor_stats
        }
    }

    /// The commands waiting to be sent, oldest first.
    pub closed spec fn pending_commands(&self) -> Seq<DigitalCommand> {
        self.command_buffer@.commands
    }

    /// No two sessions share an id, the adapter is well formed, and the
    /// command buffer holds at most `COMMAND_BUFFER_CAPACITY` commands.
    pub closed spec fn wf(&self) -> bool {
        &&& ids_unique(self.sessions@)
        &&& self.dolphin_adapter.wf()
        &&& self.command_buffer.wf()
        &&& self.command_buffer@.capacity == COMMAND_BUFFER_CAPACITY
    }

    /// A manager with no sessions, a fresh adapter and the standard
    /// GameCube mapping.
    pub fn new() -> (r: Result<Self, InputError>)
        ensures
            r matches Ok(m) && {
                &&& m.wf()
                &&& m.sessions().len() == 0
                &&& is_preset(m.global_mapping(), MappingPreset::DefaultGameCube)
                &&& !m.adapter().active()
                &&& m.adapter().controllers().len() == 0
                &&& m.pending_commands().len() == 0
                &&& m.spec_processor_stats() == ProcessorStats {
                    packets_processed: 0,
                    commands_sent: 0,
                    commands_dropped: 0,
                    total_processing_time_ns: 0,
                    average_processing_time_ns: 0,
                }
            },
    {
        let adapter = match DolphinInputAdapter::new() {
            Ok(a) => a,
            Err(e) => {
                return Err(e);
            },
        };
        Ok(
            ServerInputManager {
                sessions: Vec::new(),
                dolphin_adapter: adapter,
                global_mapping: ControllerMapping::default_gamecube(),
                command_buffer: CommandBuffer::with_capacity(COMMAND_BUFFER_CAPACITY),
                processor_stats: ProcessorStats {
                    packets_processed: 0,
                    commands_sent: 0,
                    commands_dropped: 0,
                    total_processing_time_ns: 0,
                    average_processing_time_ns: 0,
                },
            },
        )
    }

    /// The slot and activity of each session.
    fn slots(&self) -> (v: Vec<(u8, bool)>)
        ensures
            v@ == slot_view(self.sessions()),
    {
        let mut v: Vec<(u8, bool)> = Vec::new();
        let mut i: usize = 0;
        while i < self.sessions.len()
            invariant
                i <= self.sessions@.len(),
                v@ == slot_view(self.sessions@.take(i as int)),
            decreases self.sessions@.len() - i,
        {
            v.push((self.sessions[i].player_slot, self.sessions[i].is_active));
            proof {
                assert(slot_view(self.sessions@.take(i + 1)) =~= slot_view(self.sessions@.take(i as int)).push(
                    (self.sessions@[i as int].player_slot, self.sessions@[i as int].is_active),
                ));
            }
            i = i + 1;
        }
        assert(self.sessions@.take(self.sessions@.len() as int) =~= self.sessions@);
        v
    }

    /// Where the session with `id` stands, if there is one.
    fn position_of(&self, id: u128) -> (r: Option<usize>)
        ensures
            match r {
                Some(i) => i < self.sessions@.len() && self.sessions@[i as int].id == id,
                None => !has_session(self.sessions@, id),
            },
    {
        let mut i: usize = 0;
        while i < self.sessions.len()
            invariant
                i <= self.sessions@.len(),
                forall|k: int| 0 <= k < i ==> #[trigger] self.sessions@[k].id != id,
            decreases self.sessions@.len() - i,
        {
            if self.sessions[i].id == id {
                return Some(i);
            }
            i = i + 1;
        }
        None
    }

    /// Opens a session for `session_id` at time `now`, in the first free
    /// player slot and with the current global mapping; a session with the
    /// same id is replaced. Returns the slot.
    pub fn register_client_at(&mut self, session_id: u128, now: u64) -> (slot: u8)
        requires
            old(self).wf(),
        ensures
            final(self).wf(),
            final(self).spec_processor_stats() == old(self).spec_processor_stats(),
            final(self).pending_commands() == old(self).pending_commands(),
            slot == free_slot(slot_view(old(self).sessions())),
            has_session(old(self).sessions(), session_id) ==> exists|i: int|
                0 <= i < old(self).sessions().len() && #[trigger] old(self).sessions()[i].id == session_id
                    && final(self).sessions() == old(self).sessions().update(
                    i,
                    ClientInputSession {
                        id: session_id,
                        mapping: old(self).global_mapping(),
                        player_slot: slot,
                        last_input_secs: now,
                        is_active: true,
                    },
                ),
            !has_session(old(self).sessions(), session_id) ==> final(self).sessions() == old(
                self,
            ).sessions().push(
                ClientInputSession {
                    id: session_id,
                    mapping: old(self).global_mapping(),
                    player_slot: slot,
                    last_input_secs: now,
                    is_active: true,
                },
            ),
            final(self).adapter() == old(self).adapter(),
            final(self).global_mapping() == old(self).global_mapping(),
    {
        let slots = self.slots();
        let slot = assign_player_slot(&slots);
        let session = ClientInputSession {
            id: session_id,
            mapping: self.global_mapping.duplicate(),
            player_slot: slot,
            last_input_secs: now,
            is_active: true,
        };
        match self.position_of(session_id) {
            Some(i) => {
                self.sessions.set(i, session);
                proof {
                    assert(self.sessions@ == old(self).sessions@.update(i as int, session));
                }
            },
            None => {
                self.sessions.push(session);
                proof {
                    assert forall|a: int, b: int|
                        0 <= a < self.sessions@.len() && 0 <= b < self.sessions@.len() && a != b implies #[trigger] self.sessions@[a].id
                        != #[trigger] self.sessions@[b].id by {
                        let n = old(self).sessions@.len() as int;
                        if a == n {
                            assert(old(self).sessions@[b].id != session_id);
                        } else if b == n {
                            assert(old(self).sessions@[a].id != session_id);
                        }
                    }
                }
            },
        }
        slot
    }

    /// Opens a session for `session_id` now.
    pub fn register_client(&mut self, session_id: u128) -> (slot: u8)
        requires
            old(self).wf(),
        ensures
            final(self).wf(),
            final(self).spec_processor_stats() == old(self).spec_processor_stats(),
            final(self).pending_commands() == old(self).pending_commands(),
            slot == free_slot(slot_view(old(self).sessions())),
            final(self).sessions().len() == old(self).sessions().len() + if has_session(
                old(self).sessions(),
                session_id,
            ) {
                0int
            } else {
                1int
            },
            has_session(final(self).sessions(), session_id),
            final(self).adapter() == old(self).adapter(),
            final(self).global_mapping() == old(self).global_mapping(),
    {
        let now = crate::clock::unix_now_secs();
        let slot = self.register_client_at(session_id, now);
        proof {
            let n = old(self).sessions().len() as int;
            if !has_session(old(self).sessions(), session_id) {
                assert(self.sessions()[n].id == session_id);
            } else {
                let i = choose|i: int|
                    0 <= i < old(self).sessions().len() && #[trigger] old(self).sessions()[i].id == session_id
                        && self.sessions() == old(self).sessions().update(
                        i,
                        ClientInputSession {
                            id: session_id,
                            mapping: old(self).global_mapping(),
                            player_slot: slot,
                            last_input_secs: now,
                            is_active: true,
                        },
                    );
                assert(self.sessions()[i].id == session_id);
            }
        }
        slot
    }

    /// Closes the session of `session_id`, if there is one, and unplugs the
    /// controller of its slot; the error of the unplugging is returned, the
    /// session is gone either way.
    pub fn unregister_client(&mut self, session_id: u128) -> (r: Result<(), InputError>)
        requires
            old(self).wf(),
        ensures
            final(self).wf(),
            final(self).spec_processor_stats() == old(self).spec_processor_stats(),
            final(self).pending_commands() == old(self).pending_commands(),
            final(self).global_mapping() == old(self).global_mapping(),
            !has_session(old(self).sessions(), session_id) ==> r is Ok && final(self).sessions()
                == old(self).sessions() && final(self).adapter() == old(self).adapter(),
            has_session(old(self).sessions(), session_id) ==> exists|i: int|
                0 <= i < old(self).sessions().len() && #[trigger] old(self).sessions()[i].id == session_id
                    && final(self).sessions() == old(self).sessions().remove(i) && unplugged(
                    old(self).adapter(),
                    final(self).adapter(),
                    old(self).sessions()[i].player_slot,
                    r,
                ),
            !has_session(final(self).sessions(), session_id),
    {
        match self.position_of(session_id) {
            None => Ok(()),
            Some(i) => {
                let session = self.sessions.remove(i);
                proof {
                    assert forall|a: int, b: int|
                        0 <= a < self.sessions@.len() && 0 <= b < self.sessions@.len() && a != b implies #[trigger] self.sessions@[a].id
                        != #[trigger] self.sessions@[b].id by {
                        let oa = if a < i { a } else { a + 1 };
                        let ob = if b < i { b } else { b + 1 };
                        assert(self.sessions@[a] == old(self).sessions@[oa]);
                        assert(self.sessions@[b] == old(self).sessions@[ob]);
                    }
                    assert forall|k: int| 0 <= k < self.sessions@.len() implies #[trigger] self.sessions@[k].id
                        != session_id by {
                        let ok = if k < i { k } else { k + 1 };
                        assert(self.sessions@[k] == old(self).sessions@[ok]);
                    }
                }
                self.dolphin_adapter.disconnect_controller(session.player_slot)
            },
        }
    }

    /// Gives the session of `session_id`, if there is one, another mapping.
    pub fn update_mapping(&mut self, session_id: u128, mapping: ControllerMapping) -> (r: Result<(), InputError>)
        requires
            old(self).wf(),
        ensures
            r is Ok,
            final(self).wf(),
            final(self).spec_processor_stats() == old(self).spec_processor_stats(),
            final(self).pending_commands() == old(self).pending_commands(),
            !has_session(old(self).sessions(), session_id) ==> final(self).sessions() == old(
                self,
            ).sessions(),
            has_session(old(self).sessions(), session_id) ==> exists|i: int|
                0 <= i < old(self).sessions().len() && #[trigger] old(self).sessions()[i].id == session_id
                    && final(self).sessions() == old(self).sessions().update(
                    i,
                    ClientInputSession { mapping: mapping, ..old(self).sessions()[i] },
                ),
            final(self).adapter() == old(self).adapter(),
            final(self).global_mapping() == old(self).global_mapping(),
    {
        match self.position_of(session_id) {
            None => {},
            Some(i) => {
                let old_session = &self.sessions[i];
                let session = ClientInputSession {
                    id: old_session.id,
                    mapping,
                    player_slot: old_session.player_slot,
                    last_input_secs: old_session.last_input_secs,
                    is_active: old_session.is_active,
                };
                self.sessions.set(i, session);
            },
        }
        Ok(())
    }

    /// The adapter, for sending commands; the sessions and the mapping stay
    /// as they are.
    pub fn adapter_mut(&mut self) -> (a: &mut DolphinInputAdapter)
        ensures
            *a == old(self).adapter(),
            final(self).adapter() == *final(a),
            final(self).sessions() == old(self).sessions(),
            final(self).global_mapping() == old(self).global_mapping(),
            final(self).spec_processor_stats() == old(self).spec_processor_stats(),
            final(self).pending_commands() == old(self).pending_commands(),
    {
        &mut self.dolphin_adapter
    }

    /// Makes the mapping of a game's profile the global one and gives it to
    /// every session: the saved profile where there is one, the built-in
    /// profile of the game where there is none; an unreadable saved profile
    /// changes nothing.
    pub fn load_game_profile(&mut self, game_id: &str, stored: StoredProfile) -> (r: Result<(), InputError>)
        requires
            old(self).wf(),
        ensures
            r is Ok,
            final(self).wf(),
            final(self).spec_processor_stats() == old(self).spec_processor_stats(),
            final(self).pending_commands() == old(self).pending_commands(),
            final(self).adapter() == old(self).adapter(),
            stored is Unreadable ==> final(self).sessions() == old(self).sessions()
                && final(self).global_mapping() == old(self).global_mapping(),
            stored is Missing ==> is_preset(final(self).global_mapping(), profile_for(game_id@).2),
            stored matches StoredProfile::Loaded(p) ==> final(self).global_mapping() == p.controller_mapping,
            !(stored is Unreadable) ==> final(self).sessions().len() == old(self).sessions().len()
                && forall|i: int|
                0 <= i < old(self).sessions().len() ==> #[trigger] final(self).sessions()[i]
                    == (ClientInputSession { mapping: final(self).global_mapping(), ..old(self).sessions()[i] }),
    {
        let mapping = match stored {
            StoredProfile::Missing => GameProfile::default_for_game(game_id).controller_mapping,
            StoredProfile::Loaded(p) => p.controller_mapping,
            StoredProfile::Unreadable => {
                return Ok(());
            },
        };
        self.global_mapping = mapping;
        let mut i: usize = 0;
        while i < self.sessions.len()
            invariant
                self.processor_stats == old(self).processor_stats,
                self.command_buffer == old(self).command_buffer,
                self.command_buffer.wf(),
                self.command_buffer@.capacity == COMMAND_BUFFER_CAPACITY,
                i <= self.sessions@.len(),
                self.sessions@.len() == old(self).sessions@.len(),
                self.dolphin_adapter == old(self).dolphin_adapter,
                self.global_mapping == mapping,
                ids_unique(old(self).sessions@),
                forall|k: int|
                    0 <= k < i ==> #[trigger] self.sessions@[k] == (ClientInputSession {
                        mapping: mapping,
                        ..old(self).sessions@[k]
                    }),
                forall|k: int| i <= k < self.sessions@.len() ==> #[trigger] self.sessions@[k] == old(self).sessions@[k],
            decreases self.sessions@.len() - i,
        {
            let current = &self.sessions[i];
            let session = ClientInputSession {
                id: current.id,
                mapping: self.global_mapping.duplicate(),
                player_slot: current.player_slot,
                last_input_secs: current.last_input_secs,
                is_active: current.is_active,
            };
            self.sessions.set(i, session);
            i = i + 1;
        }
        proof {
            assert forall|a: int, b: int|
                0 <= a < self.sessions@.len() && 0 <= b < self.sessions@.len() && a != b implies #[trigger] self.sessions@[a].id
                != #[trigger] self.sessions@[b].id by {
                assert(self.sessions@[a].id == old(self).sessions@[a].id);
                assert(self.sessions@[b].id == old(self).sessions@[b].id);
            }
        }
        Ok(())
    }

    /// Stamps `now` as the time of the last input of the session of
    /// `session_id`, if there is one.
    pub fn note_input_at(&mut self, session_id: u128, now: u64)
        requires
            old(self).wf(),
        ensures
            final(self).wf(),
            final(self).spec_processor_stats() == old(self).spec_processor_stats(),
            final(self).pending_commands() == old(self).pending_commands(),
            !has_session(old(self).sessions(), session_id) ==> final(self).sessions() == old(
                self,
            ).sessions(),
            has_session(old(self).sessions(), session_id) ==> exists|i: int|
                0 <= i < old(self).sessions().len() && #[trigger] old(self).sessions()[i].id == session_id
                    && final(self).sessions() == old(self).sessions().update(
                    i,
                    ClientInputSession { last_input_secs: now, ..old(self).sessions()[i] },
                ),
            final(self).adapter() == old(self).adapter(),
            final(self).global_mapping() == old(self).global_mapping(),
    {
        match self.position_of(session_id) {
            None => {},
            Some(i) => {
                let current = &self.sessions[i];
                let session = ClientInputSession {
                    id: current.id,
                    mapping: current.mapping.duplicate(),
                    player_slot: current.player_slot,
                    last_input_secs: now,
                    is_active: current.is_active,
                };
                self.sessions.set(i, session);
                proof {
                    assert forall|a: int, b: int|
                        0 <= a < self.sessions@.len() && 0 <= b < self.sessions@.len() && a != b implies #[trigger] self.sessions@[a].id
                        != #[trigger] self.sessions@[b].id by {
                        assert(self.sessions@[a].id == old(self).sessions@[a].id);
                        assert(self.sessions@[b].id == old(self).sessions@[b].id);
                    }
                }
            },
        }
    }

    /// Drops the sessions that have had no input for longer than the
    /// timeout at `now`: first each of them is marked inactive, then they
    /// are removed in order and the controller of each one's slot is
    /// unplugged. Returns the ids removed; a failed unplugging stops there
    /// and is returned, with the session it concerned removed and the idle
    /// sessions after it left in place, inactive.
    pub fn expire_idle_sessions_at(&mut self, now: u64) -> (r: Result<Vec<u128>, InputError>)
        requires
            old(self).wf(),
        ensures
            final(self).wf(),
            final(self).spec_processor_stats() == old(self).spec_processor_stats(),
            final(self).pending_commands() == old(self).pending_commands(),
            final(self).global_mapping() == old(self).global_mapping(),
            forall|x: u8|
                #[trigger] final(self).adapter().controllers().contains(x) ==> old(
                    self,
                ).adapter().controllers().contains(x),
            r matches Ok(ids) ==> {
                &&& final(self).sessions() == old(self).sessions().filter(live_at(now))
                &&& ids@ == old(self).sessions().filter(idle_at(now)).map_values(
                    |c: ClientInputSession| c.id,
                )
                &&& forall|k: int|
                    0 <= k < old(self).sessions().len() && idle(old(self).sessions()[k], now)
                        ==> !final(self).adapter().controllers().contains(
                        #[trigger] old(self).sessions()[k].player_slot,
                    )
            },
            no_idle_plugged(old(self).sessions(), old(self).adapter().controllers(), now) ==> r is Ok,
            r is Err ==> exists|j: int|
                0 <= j < old(self).sessions().len() && idle(#[trigger] old(self).sessions()[j], now)
                    && final(self).sessions() == old(self).sessions().subrange(0, j).filter(
                    live_at(now),
                ) + old(self).sessions().subrange(j + 1, old(self).sessions().len() as int).map_values(
                    |c: ClientInputSession| marked_at(c, now),
                ),
    {
        let ghost original = self.sessions@;
        let n = self.sessions.len();
        let mut i: usize = 0;
        while i < n
            invariant
                self.processor_stats == old(self).processor_stats,
                self.command_buffer == old(self).command_buffer,
                self.command_buffer.wf(),
                self.command_buffer@.capacity == COMMAND_BUFFER_CAPACITY,
                i <= n,
                n == original.len(),
                original == old(self).sessions@,
                self.sessions@.len() == n,
                self.dolphin_adapter == old(self).dolphin_adapter,
                self.global_mapping == old(self).global_mapping,
                forall|k: int| 0 <= k < i ==> #[trigger] self.sessions@[k] == marked_at(original[k], now),
                forall|k: int| i <= k < n ==> #[trigger] self.sessions@[k] == original[k],
            decreases n - i,
        {
            let current = &self.sessions[i];
            if now >= current.last_input_secs && now - current.last_input_secs > SESSION_TIMEOUT_SECS {
                let session = ClientInputSession {
                    id: current.id,
                    mapping: current.mapping.duplicate(),
                    player_slot: current.player_slot,
                    last_input_secs: current.last_input_secs,
                    is_active: false,
                };
                self.sessions.set(i, session);
            }
            i = i + 1;
        }
        let ghost marked = self.sessions@;
        proof {
            assert(marked =~= original.map_values(|c: ClientInputSession| marked_at(c, now)));
            assert forall|a: int, b: int|
                0 <= a < marked.len() && 0 <= b < marked.len() && a != b implies #[trigger] marked[a].id
                != #[trigger] marked[b].id by {
                assert(marked[a].id == original[a].id);
                assert(marked[b].id == original[b].id);
            }
        }
        let mut removed: Vec<u128> = Vec::new();
        let mut i: usize = 0;
        let ghost mut j: int = 0;
        while i < self.sessions.len()
            invariant
                self.processor_stats == old(self).processor_stats,
                self.command_buffer == old(self).command_buffer,
                self.command_buffer.wf(),
                self.command_buffer@.capacity == COMMAND_BUFFER_CAPACITY,
                0 <= j <= n,
                n == original.len(),
                original == old(self).sessions@,
                marked.len() == n,
                forall|k: int| 0 <= k < n ==> #[trigger] marked[k] == marked_at(original[k], now),
                i == original.subrange(0, j).filter(live_at(now)).len(),
                self.sessions@ == original.subrange(0, j).filter(live_at(now)) + marked.subrange(j, n as int),
                removed@ == original.subrange(0, j).filter(idle_at(now)).map_values(
                    |c: ClientInputSession| c.id,
                ),
                ids_unique(self.sessions@),
                self.dolphin_adapter.wf(),
                self.global_mapping == old(self).global_mapping,
                forall|x: u8|
                    #[trigger] self.dolphin_adapter.controllers().contains(x) ==> old(
                        self,
                    ).dolphin_adapter.controllers().contains(x),
                forall|k: int|
                    0 <= k < j && idle(original[k], now) ==> !self.dolphin_adapter.controllers().contains(
                        #[trigger] original[k].player_slot,
                    ),
                no_idle_plugged(original, old(self).dolphin_adapter.controllers(), now)
                    ==> self.dolphin_adapter.controllers() == old(self).dolphin_adapter.controllers(),
            decreases n - j,
        {
            let ghost kept = original.subrange(0, j).filter(live_at(now));
            assert(self.sessions@[i as int] == marked[j]);
            proof {
                assert(original.subrange(0, j + 1).drop_last() =~= original.subrange(0, j));
                reveal_with_fuel(Seq::filter, 1);
            }
            let current = &self.sessions[i];
            if now >= current.last_input_secs && now - current.last_input_secs > SESSION_TIMEOUT_SECS {
                let ghost before = self.sessions@;
                let ghost adapter_before = self.dolphin_adapter;
                let session = self.sessions.remove(i);
                proof {
                    assert(self.sessions@ =~= kept + marked.subrange(j + 1, n as int));
                    assert forall|a: int, b: int|
                        0 <= a < self.sessions@.len() && 0 <= b < self.sessions@.len() && a != b implies #[trigger] self.sessions@[a].id
                        != #[trigger] self.sessions@[b].id by {
                        let oa = if a < i { a } else { a + 1 };
                        let ob = if b < i { b } else { b + 1 };
                        assert(self.sessions@[a] == before[oa]);
                        assert(self.sessions@[b] == before[ob]);
                    }
                    assert(original.subrange(0, j + 1).filter(live_at(now)) == kept);
                    assert(original.subrange(0, j + 1).filter(idle_at(now)) == original.subrange(
                        0,
                        j,
                    ).filter(idle_at(now)).push(original[j]));
                }
                removed.push(session.id);
                proof {
                    assert(session.player_slot == original[j].player_slot);
                    assert(idle(original[j], now));
                }
                let outcome = self.dolphin_adapter.disconnect_controller(session.player_slot);
                proof {
                    assert forall|x: u8| #[trigger]
                        self.dolphin_adapter.controllers().contains(x) implies old(
                        self,
                    ).dolphin_adapter.controllers().contains(x) by {
                        if adapter_before.controllers().contains(session.player_slot) {
                            let w = choose|w: int|
                                0 <= w < adapter_before.controllers().len()
                                    && #[trigger] adapter_before.controllers()[w] == session.player_slot
                                    && self.dolphin_adapter.controllers() == adapter_before.controllers().remove(w);
                            let p = choose|p: int|
                                0 <= p < self.dolphin_adapter.controllers().len()
                                    && self.dolphin_adapter.controllers()[p] == x;
                            let q = if p < w { p } else { p + 1 };
                            assert(adapter_before.controllers()[q] == x);
                        }
                        assert(adapter_before.controllers().contains(x));
                    }
                    assert forall|k: int|
                        0 <= k < j + 1 && idle(original[k], now) implies !self.dolphin_adapter.controllers().contains(
                        #[trigger] original[k].player_slot,
                    ) by {
                        if k < j {
                            if self.dolphin_adapter.controllers().contains(original[k].player_slot) {
                                let y = original[k].player_slot;
                                if adapter_before.controllers().contains(session.player_slot) {
                                    let w = choose|w: int|
                                        0 <= w < adapter_before.controllers().len()
                                            && #[trigger] adapter_before.controllers()[w] == session.player_slot
                                            && self.dolphin_adapter.controllers() == adapter_before.controllers().remove(w);
                                    let p = choose|p: int|
                                        0 <= p < self.dolphin_adapter.controllers().len()
                                            && self.dolphin_adapter.controllers()[p] == y;
                                    let q = if p < w { p } else { p + 1 };
                                    assert(adapter_before.controllers()[q] == y);
                                }
                            }
                        }
                    }
                }
                match outcome {
                    Ok(()) => {},
                    Err(e) => {
                        proof {
                            assert(marked.subrange(j + 1, n as int) =~= original.subrange(
                                j + 1,
                                n as int,
                            ).map_values(|c: ClientInputSession| marked_at(c, now)));
                            assert(idle(original[j], now));
                            assert(old(self).sessions()[j] == original[j]);
                            assert(0 <= j < original.len() && idle(original[j], now) && self.sessions@
                                == original.subrange(0, j).filter(live_at(now)) + original.subrange(
                                j + 1,
                                original.len() as int,
                            ).map_values(|c: ClientInputSession| marked_at(c, now)));
                        }
                        return Err(e);
                    },
                }
            } else {
                proof {
                    assert(marked[j] == original[j]);
                    assert(original.subrange(0, j + 1).filter(live_at(now)) == kept.push(original[j]));
                    assert(original.subrange(0, j + 1).filter(idle_at(now)) == original.subrange(
                        0,
                        j,
                    ).filter(idle_at(now)));
                    assert(self.sessions@ =~= kept.push(original[j]) + marked.subrange(j + 1, n as int));
                }
                i = i + 1;
            }
            proof {
                j = j + 1;
            }
        }
        proof {
            assert(j == n) by {
                if j < n {
                    assert(self.sessions@.len() == i + (n - j));
                }
            }
            assert(original.subrange(0, n as int) =~= original);
            assert(self.sessions@ =~= original.filter(live_at(now)));
        }
        Ok(removed)
    }

    /// The session of `session_id`, if there is one.
    pub fn session(&self, session_id: u128) -> (r: Option<&ClientInputSession>)
        ensures
            !has_session(self.sessions(), session_id) ==> r is None,
            r matches Some(c) ==> exists|i: int|
                0 <= i < self.sessions().len() && #[trigger] self.sessions()[i] == *c && c.id == session_id,
            has_session(self.sessions(), session_id) ==> r is Some,
    {
        match self.position_of(session_id) {
            None => None,
            Some(i) => Some(&self.sessions[i]),
        }
    }

    /// One round of input for the session of `session_id`: at most ten of
    /// `packets` are taken, and each one's buttons are turned into commands
    /// for the session's player with the session's mapping. The commands
    /// join the bounded buffer, whose oldest commands are dropped when it
    /// is full; then one batch of at most twenty of the oldest waiting
    /// commands is taken out to be sent, or none when nothing waits. A
    /// session that is not there takes no packets. The packets, sent and
    /// dropped commands are counted.
    pub fn process_session_packets(&mut self, session_id: u128, packets: &Vec<ControllerInput>) -> (r: (
        usize,
        Option<Vec<DigitalCommand>>,
    ))
        requires
            old(self).wf(),
        ensures
            final(self).wf(),
            final(self).sessions() == old(self).sessions(),
            final(self).adapter() == old(self).adapter(),
            final(self).global_mapping() == old(self).global_mapping(),
            r.0 == round_count(old(self).sessions(), session_id, packets@),
            ({
                let all = old(self).pending_commands() + round_input(
                    old(self).sessions(),
                    session_id,
                    packets@,
                );
                let waiting = kept(all);
                let b = batch_len(waiting);
                &&& waiting.len() == 0 ==> r.1 is None
                &&& waiting.len() > 0 ==> (r.1 matches Some(v) && v@ == waiting.take(b as int))
                &&& final(self).pending_commands() == waiting.skip(b as int)
                &&& final(self).spec_processor_stats().commands_sent == advanced(
                    old(self).spec_processor_stats().commands_sent,
                    b,
                )
                &&& final(self).spec_processor_stats().commands_dropped == advanced(
                    old(self).spec_processor_stats().commands_dropped,
                    overflow(all.len()),
                )
            }),
            timed_from(old(self).spec_processor_stats(), final(self).spec_processor_stats(), r.0 as nat),
    {
        let start_time = clock_now();
        let ghost q0 = self.command_buffer@.commands;
        let ghost d0 = self.command_buffer.dropped();
        let mut flat: Vec<DigitalCommand> = Vec::new();
        let mut n: usize = 0;
        match self.position_of(session_id) {
            None => {},
            Some(i) => {
                let slot = self.sessions[i].player_slot;
                let layout = self.sessions[i].mapping.button_layout();
                let ghost c = self.sessions@[i as int];
                n = if packets.len() < MAX_PACKETS_PER_ROUND {
                    packets.len()
                } else {
                    MAX_PACKETS_PER_ROUND
                };
                let mut k: usize = 0;
                while k < n
                    invariant
                        k <= n,
                        n <= packets@.len(),
                        n <= MAX_PACKETS_PER_ROUND,
                        layout == layout_of(c.mapping),
                        slot == c.player_slot,
                        flat@ == packet_commands(slot, layout, packets@.take(k as int)),
                        flat@.len() == 9 * k,
                    decreases n - k,
                {
                    let mut commands = convert_buttons(slot, &layout, packets[k].buttons as u16);
                    proof {
                        assert(packets@.take(k + 1).drop_last() =~= packets@.take(k as int));
                        assert(packets@.take(k + 1).last() == packets@[k as int]);
                    }
                    flat.append(&mut commands);
                    k = k + 1;
                }
                proof {
                    let j = choose|j: int|
                        0 <= j < self.sessions@.len() && self.sessions@[j].id == session_id;
                    assert(self.sessions@[j].id == self.sessions@[i as int].id);
                    assert(j == i);
                }
            },
        }
        assert(flat@ == round_input(old(self).sessions(), session_id, packets@));
        assert(n == round_count(old(self).sessions(), session_id, packets@));
        proof {
            self.command_buffer.lemma_bounded();
            assert(q0 + flat@.take(0) =~= q0);
            assert(kept(q0) =~= q0);
        }
        let mut k: usize = 0;
        while k < flat.len()
            invariant
                k <= flat@.len(),
                flat@.len() <= 90,
                q0.len() <= COMMAND_BUFFER_CAPACITY,
                self.command_buffer.wf(),
                self.command_buffer@.capacity == COMMAND_BUFFER_CAPACITY,
                self.command_buffer@.commands == kept(q0 + flat@.take(k as int)),
                self.command_buffer.dropped() == advanced(d0, overflow((q0.len() + k) as nat)),
                self.command_buffer.sent() == old(self).command_buffer.sent(),
                self.sessions == old(self).sessions,
                self.dolphin_adapter == old(self).dolphin_adapter,
                self.global_mapping == old(self).global_mapping,
                self.processor_stats == old(self).processor_stats,
                d0 == old(self).command_buffer.dropped(),
                q0 == old(self).command_buffer@.commands,
            decreases flat@.len() - k,
        {
            let ghost before = self.command_buffer@.commands;
            let ghost s = q0 + flat@.take(k as int);
            self.command_buffer.push(flat[k]);
            proof {
                let c = flat@[k as int];
                let t = q0 + flat@.take(k + 1);
                assert(t =~= s.push(c));
                assert(s.len() == q0.len() + k);
                if before.len() == COMMAND_BUFFER_CAPACITY {
                    assert(overflow(t.len()) == overflow(s.len()) + 1);
                    assert(self.command_buffer@.commands =~= kept(t));
                } else {
                    assert(overflow(s.len()) == 0);
                    assert(overflow(t.len()) == 0);
                    assert(self.command_buffer@.commands =~= kept(t));
                }
            }
            k = k + 1;
        }
        proof {
            assert(flat@.take(flat@.len() as int) =~= flat@);
        }
        let ghost waiting = self.command_buffer@.commands;
        let batch = self.command_buffer.take_batch(COMMAND_BATCH_SIZE);
        let elapsed = nanos_since(&start_time);
        if n > 0 {
            let processed = self.processor_stats.packets_processed.wrapping_add(n as u64);
            let total_time = self.processor_stats.total_processing_time_ns.wrapping_add(elapsed);
            self.processor_stats.packets_processed = processed;
            self.processor_stats.total_processing_time_ns = total_time;
            if processed > 0 {
                self.processor_stats.average_processing_time_ns = total_time / processed;
            }
        }
        proof {
            let all = old(self).pending_commands() + round_input(old(self).sessions(), session_id, packets@);
            assert(waiting == kept(all));
            assert(packet_counters(self.spec_processor_stats()) == packet_counters(
                timed(old(self).spec_processor_stats(), n as nat, elapsed),
            ));
            assert(timed_from(old(self).spec_processor_stats(), self.spec_processor_stats(), n as nat));
        }
        (n, batch)
    }

    /// The number of commands waiting to be sent.
    pub fn pending_count(&self) -> (n: usize)
        ensures
            n == self.pending_commands().len(),
    {
        self.command_buffer.len()
    }

    /// The number of active sessions and of all sessions, and the counters
    /// of input processing.
    pub fn get_stats(&self) -> (s: InputStats)
        ensures
            s.active_sessions == slot_view(self.sessions()).filter(|c: (u8, bool)| c.1).len(),
            s.total_sessions == self.sessions().len(),
            s.processor_stats == self.spec_processor_stats(),
    {
        let slots = self.slots();
        InputStats {
            active_sessions: count_active(&slots),
            total_sessions: self.sessions.len(),
            processor_stats: ProcessorStats {
                commands_sent: self.command_buffer.sent_count(),
                commands_dropped: self.command_buffer.dropped_count(),
                ..self.processor_stats
            },
        }
    }
}

impl Default for ServerInputManager {
    /// A manager as `new` makes it.
    fn default() -> (m: Self)
        ensures
            m.wf(),
            m.sessions().len() == 0,
            is_preset(m.global_mapping(), MappingPreset::DefaultGameCube),
            !m.adapter().active(),
            m.adapter().controllers().len() == 0,
    {
        Self::new().unwrap()
    }
}

/// One round takes at most ten packets, all of them when there are no more
/// than ten; the buffer keeps the newest thousand commands and drops the
/// rest, oldest first; and a batch holds at most twenty of the waiting
/// commands, all of them when no more than twenty wait.
pub proof fn lemma_round_limits(packets: Seq<ControllerInput>, all: Seq<DigitalCommand>, waiting: Seq<DigitalCommand>)
    ensures
        round_taken(packets) == if packets.len() <= 10 {
            packets.len()
        } else {
            10
        },
        overflow(all.len()) == if all.len() > 1000 {
            all.len() - 1000
        } else {
            0
        },
        kept(all) == all.subrange(all.len() - kept(all).len(), all.len() as int),
        kept(all).len() == if all.len() > 1000 {
            1000
        } else {
            all.len()
        },
        batch_len(waiting) == if waiting.len() <= 20 {
            waiting.len()
        } else {
            20
        },
{
    assert(kept(all) =~= all.subrange(all.len() - kept(all).len(), all.len() as int));
}

/// Closing the session that was just opened for a new id gives back the
/// sessions there were before.
pub proof fn lemma_unregister_undoes_register(before: Seq<ClientInputSession>, opened: ClientInputSession, i: int)
    requires
        !has_session(before, opened.id),
        0 <= i < before.len() + 1,
        before.push(opened)[i].id == opened.id,
    ensures
        before.push(opened).remove(i) == before,
{
    if i < before.len() {
        assert(before[i].id == opened.id);
    }
    assert(before.push(opened).remove(i) =~= before);
}

/// A new session never shares its slot with an active session while one of
/// the four slots is free.
pub proof fn lemma_assigned_slot_is_free(sessions: Seq<(u8, bool)>)
    requires
        exists|s: u8| 1 <= s <= 4 && !#[trigger] slot_taken(sessions, s),
    ensures
        !slot_taken(sessions, free_slot(sessions)),
{
}

} // verus!
