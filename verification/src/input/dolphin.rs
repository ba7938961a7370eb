//! Commands to the emulator's input pipe, controller slots and the health of
//! the pipe.

use crate::error::InputError;
use crate::streaming::lock_free::{clock_now, nanos_since};
use crate::input::processor::{AnalogStick, DigitalCommand, DolphinButton};
use crate::text::{append_decimal, decimal};
use vstd::prelude::*;
use vstd::string::*;

verus! {

/// State of the input adapter.
#[derive(Debug, Clone, Copy, PartialEq, Eq)]
pub struct AdapterStatus {
    pub is_active: bool,
    pub connected_controllers: usize,
    pub has_dolphin_process: bool,
}

/// The name of a button in emulator commands.
pub open spec fn button_name(b: DolphinButton) -> Seq<char> {
    match b {
        DolphinButton::A => "A"@,
        DolphinButton::B => "B"@,
        DolphinButton::X => "X"@,
        DolphinButton::Y => "Y"@,
        DolphinButton::Z => "Z"@,
        DolphinButton::L => "L"@,
        DolphinButton::R => "R"@,
        DolphinButton::Start => "START"@,
        DolphinButton::Up => "UP"@,
        DolphinButton::Down => "DOWN"@,
        DolphinButton::Left => "LEFT"@,
        DolphinButton::Right => "RIGHT"@,
    }
}

/// The name of a button in emulator commands.
fn button_label(b: DolphinButton) -> (s: &'static str)
    ensures
        s@ == button_name(b),
{
    match b {
        DolphinButton::A => "A",
        DolphinButton::B => "B",
        DolphinButton::X => "X",
        DolphinButton::Y => "Y",
        DolphinButton::Z => "Z",
        DolphinButton::L => "L",
        DolphinButton::R => "R",
        DolphinButton::Start => "START",
        DolphinButton::Up => "UP",
        DolphinButton::Down => "DOWN",
        DolphinButton::Left => "LEFT",
        DolphinButton::Right => "RIGHT",
    }
}

/// `BUTTON <player> <button> PRESS|RELEASE`.
pub fn format_button_command(player: u8, button: DolphinButton, pressed: bool) -> (s: String)
    ensures
        s@ == "BUTTON "@ + decimal(player as nat) + " "@ + button_name(button) + " "@ + (if pressed {
            "PRESS"@
        } else {
            "RELEASE"@
        }),
{
    let mut s = String::from_str("BUTTON ");
    append_decimal(&mut s, player as u64);
    s.append(" ");
    s.append(button_label(button));
    s.append(" ");
    if pressed {
        s.append("PRESS");
    } else {
        s.append("RELEASE");
    }
    s
}

/// The D-pad byte: bit 1 up, 2 down, 4 left, 8 right.
pub open spec fn dpad_value(up: bool, down: bool, left: bool, right: bool) -> nat {
    (if up { 1nat } else { 0 }) + (if down { 2nat } else { 0 }) + (if left { 4nat } else { 0 }) + (
    if right {
        8nat
    } else {
        0
    })
}

/// `DPAD <player> <bits>`.
pub fn format_dpad_command(player: u8, up: bool, down: bool, left: bool, right: bool) -> (s: String)
    ensures
        s@ == "DPAD "@ + decimal(player as nat) + " "@ + decimal(dpad_value(up, down, left, right)),
{
    let mut dpad_val: u8 = 0;
    if up {
        dpad_val = dpad_val + 1;
    }
    if down {
        dpad_val = dpad_val + 2;
    }
    if left {
        dpad_val = dpad_val + 4;
    }
    if right {
        dpad_val = dpad_val + 8;
    }
    let mut s = String::from_str("DPAD ");
    append_decimal(&mut s, player as u64);
    s.append(" ");
    append_decimal(&mut s, dpad_val as u64);
    s
}

/// The name of a stick in emulator commands.
pub open spec fn stick_name(stick: AnalogStick) -> Seq<char> {
    match stick {
        AnalogStick::Main => "MAIN"@,
        AnalogStick::CStick => "C"@,
    }
}

fn stick_label(stick: AnalogStick) -> (s: &'static str)
    ensures
        s@ == stick_name(stick),
{
    match stick {
        AnalogStick::Main => "MAIN",
        AnalogStick::CStick => "C",
    }
}

/// `ANALOG <player> <stick> <x> <y>`, with each axis already scaled to a
/// byte: 0 full left or down, 127 centred, 255 full right or up.
pub fn format_analog_command(player: u8, stick: AnalogStick, x_val: u8, y_val: u8) -> (s: String)
    ensures
        s@ == "ANALOG "@ + decimal(player as nat) + " "@ + stick_name(stick) + " "@ + decimal(
            x_val as nat,
        ) + " "@ + decimal(y_val as nat),
{
    let mut s = String::from_str("ANALOG ");
    append_decimal(&mut s, player as u64);
    s.append(" ");
    s.append(stick_label(stick));
    s.append(" ");
    append_decimal(&mut s, x_val as u64);
    s.append(" ");
    append_decimal(&mut s, y_val as u64);
    s
}

/// `TRIGGER <player> <left> <right>`, with each trigger already scaled to a
/// byte: 0 released, 255 fully pressed.
pub fn format_trigger_command(player: u8, left_val: u8, right_val: u8) -> (s: String)
    ensures
        s@ == "TRIGGER "@ + decimal(player as nat) + " "@ + decimal(left_val as nat) + " "@
            + decimal(right_val as nat),
{
    let mut s = String::from_str("TRIGGER ");
    append_decimal(&mut s, player as u64);
    s.append(" ");
    append_decimal(&mut s, left_val as u64);
    s.append(" ");
    append_decimal(&mut s, right_val as u64);
    s
}

/// `POINTER <player> <x> <y> <distance>`, with the position already scaled
/// to a 1024 by 768 screen and the distance to a percentage.
pub fn format_pointer_command(player: u8, screen_x: u16, screen_y: u16, distance: u8) -> (s: String)
    ensures
        s@ == "POINTER "@ + decimal(player as nat) + " "@ + decimal(screen_x as nat) + " "@
            + decimal(screen_y as nat) + " "@ + decimal(distance as nat),
{
    let mut s = String::from_str("POINTER ");
    append_decimal(&mut s, player as u64);
    s.append(" ");
    append_decimal(&mut s, screen_x as u64);
    s.append(" ");
    append_decimal(&mut s, screen_y as u64);
    s.append(" ");
    append_decimal(&mut s, distance as u64);
    s
}

/// Player slots run from 1 to 4.
pub open spec fn valid_slot(slot: u8) -> bool {
    1 <= slot <= 4
}

/// The command that plugs a standard controller into `slot`, or the error
/// for a slot outside 1 to 4.
pub fn connect_command(slot: u8) -> (r: Result<String, InputError>)
    ensures
        valid_slot(slot) ==> (r matches Ok(s) && s@ == "SET CONTROLLER "@ + decimal(slot as nat)
            + " STANDARD"@),
        !valid_slot(slot) ==> r == Err::<String, InputError>(InputError::InvalidPlayer { player: slot }),
{
    if slot == 0 || slot > 4 {
        return Err(InputError::InvalidPlayer { player: slot });
    }
    let mut s = String::from_str("SET CONTROLLER ");
    append_decimal(&mut s, slot as u64);
    s.append(" STANDARD");
    Ok(s)
}

/// The command that unplugs the controller of `slot`.
pub fn disconnect_command(slot: u8) -> (s: String)
    ensures
        s@ == "SET CONTROLLER "@ + decimal(slot as nat) + " NONE"@,
{
    let mut s = String::from_str("SET CONTROLLER ");
    append_decimal(&mut s, slot as u64);
    s.append(" NONE");
    s
}

/// Health of the command pipe.
#[derive(Debug, Clone, Copy, PartialEq, Eq)]
pub struct ConnectionHealth {
    pub commands_sent: u64,
    pub commands_failed: u64,
    pub is_healthy: bool,
}

/// A counter after one more event, wrapping after the largest value.
pub open spec fn bumped(x: u64) -> u64 {
    if x == u64::MAX {
        0
    } else {
        (x + 1) as u64
    }
}

/// Books the outcome of sending a command: with no pipe the adapter is not
/// initialized; a sent command counts and marks the pipe healthy; a failed
/// one counts, marks it unhealthy and reports the failure.
pub fn record_send(health: &mut ConnectionHealth, outcome: Option<Result<(), String>>) -> (r: Result<(), InputError>)
    ensures
        outcome is None ==> r == Err::<(), InputError>(InputError::AdapterNotInitialized)
            && *final(health) == *old(health),
        outcome matches Some(Ok(_)) ==> r is Ok && *final(health) == (ConnectionHealth {
            commands_sent: bumped(old(health).commands_sent),
            is_healthy: true,
            ..*old(health)
        }),
        outcome matches Some(Err(e)) ==> (r matches Err(InputError::CommandSendFailed { reason })
            && reason@ == e@) && *final(health) == (ConnectionHealth {
            commands_failed: bumped(old(health).commands_failed),
            is_healthy: false,
            ..*old(health)
        }),
{
    match outcome {
        None => Err(InputError::AdapterNotInitialized),
        Some(Ok(())) => {
            health.commands_sent = health.commands_sent.wrapping_add(1);
            health.is_healthy = true;
            Ok(())
        },
        Some(Err(e)) => {
            health.commands_failed = health.commands_failed.wrapping_add(1);
            health.is_healthy = false;
            Err(InputError::CommandSendFailed { reason: e })
        },
    }
}

#[verifier::external_type_specification]
#[verifier::external_body]
#[verifier::reject_recursive_types(T)]
pub struct ExUnboundedSender<T>(tokio::sync::mpsc::UnboundedSender<T>);

#[verifier::external_type_specification]
#[verifier::external_body]
pub struct ExChild(tokio::process::Child);

/// `UnboundedSender::send`: hands `command` to the receiving task; it fails,
/// with the error's text, once the receiving side is closed. Whether it is
/// closed depends on the other task: nothing is claimed of the outcome.
#[verifier::external_body]
fn send_on_channel(sender: &tokio::sync::mpsc::UnboundedSender<String>, command: String) -> (r: Result<(), String>) {
    match sender.send(command) {
        Ok(()) => Ok(()),
        Err(e) => Err(e.to_string()),
    }
}

/// Whether `after` and `r` book one attempt to send a command from
/// `before`: without a pipe the adapter is not initialized and nothing
/// changes; a sent command counts and marks the pipe healthy; a failed one
/// counts, marks it unhealthy and is reported.
pub open spec fn send_booked(has_pipe: bool, before: ConnectionHealth, after: ConnectionHealth, r: Result<(), InputError>) -> bool {
    if !has_pipe {
        r == Err::<(), InputError>(InputError::AdapterNotInitialized) && after == before
    } else {
        ||| (r is Ok && after == ConnectionHealth {
            commands_sent: bumped(before.commands_sent),
            is_healthy: true,
            ..before
        })
        ||| (r matches Err(InputError::CommandSendFailed { .. }) && after == ConnectionHealth {
            commands_failed: bumped(before.commands_failed),
            is_healthy: false,
            ..before
        })
    }
}

/// The slots plugged in and the number of commands sent after `cmds` are
/// sent in order from `slots`: a button of a player without a controller
/// plugs one in first, which takes a command of its own.
pub open spec fn walk_commands(slots: Seq<u8>, cmds: Seq<DigitalCommand>) -> (Seq<u8>, nat)
    decreases cmds.len(),
{
    if cmds.len() == 0 {
        (slots, 0)
    } else {
        let (s, n) = walk_commands(slots, cmds.drop_last());
        match cmds.last() {
            DigitalCommand::ButtonPress { player, .. } => if s.contains(player) {
                (s, n + 1)
            } else {
                (s.push(player), n + 2)
            },
            DigitalCommand::DPadInput { .. } => (s, n + 1),
        }
    }
}

/// `x` after `n` more events, wrapping after the largest value.
pub open spec fn bumped_by(x: u64, n: nat) -> u64 {
    ((x + n) % 0x1_0000_0000_0000_0000) as u64
}

/// The health after `n` more commands were sent.
pub open spec fn health_after(h: ConnectionHealth, n: nat) -> ConnectionHealth {
    ConnectionHealth {
        commands_sent: bumped_by(h.commands_sent, n),
        is_healthy: if n > 0 {
            true
        } else {
            h.is_healthy
        },
        ..h
    }
}

/// Whether `slots`, `health` and `r` are what sending `cmds` from
/// `before_slots` and `before_health` leaves when it stops at command `i`:
/// the commands before it went through; a button of a player without a
/// controller first plugs one in, which a player outside 1 to 4 cannot;
/// then the failing send is booked.
pub open spec fn stopped_at(
    has_pipe: bool,
    before_slots: Seq<u8>,
    before_health: ConnectionHealth,
    cmds: Seq<DigitalCommand>,
    i: int,
    slots: Seq<u8>,
    health: ConnectionHealth,
    r: Result<(), InputError>,
) -> bool {
    let (s, n) = walk_commands(before_slots, cmds.take(i));
    let h = health_after(before_health, n);
    &&& r is Err
    &&& match cmds[i] {
        DigitalCommand::ButtonPress { player, .. } => if s.contains(player) {
            slots == s && send_booked(has_pipe, h, health, r)
        } else if !valid_slot(player) {
            r == Err::<(), InputError>(InputError::InvalidPlayer { player }) && slots == s && health == h
        } else {
            &&& slots == s.push(player)
            &&& send_booked(has_pipe, h, health, r) || (has_pipe && send_booked(
                has_pipe,
                health_after(before_health, n + 1),
                health,
                r,
            ))
        },
        DigitalCommand::DPadInput { .. } => slots == s && send_booked(has_pipe, h, health, r),
    }
}

/// What a health check at time `now` does to the adapter: after more than
/// `HEARTBEAT_AFTER_SECS` seconds without a command a heartbeat is sent and
/// booked, and a heartbeat that could not be sent marks the pipe unhealthy;
/// otherwise the health stays. The controllers and activity stay.
pub open spec fn checked_at(before: DolphinInputAdapter, after: DolphinInputAdapter, now: u64) -> bool {
    let idle = if now >= before.last_command() {
        now - before.last_command()
    } else {
        0
    };
    &&& idle <= HEARTBEAT_AFTER_SECS ==> after.health() == before.health()
    &&& idle > HEARTBEAT_AFTER_SECS ==> {
        ||| after.health() == (ConnectionHealth {
            commands_sent: bumped(before.health().commands_sent),
            is_healthy: true,
            ..before.health()
        }) && before.has_pipe()
        ||| after.health() == (ConnectionHealth {
            commands_failed: bumped(before.health().commands_failed),
            is_healthy: false,
            ..before.health()
        }) && before.has_pipe()
        ||| after.health() == (ConnectionHealth { is_healthy: false, ..before.health() })
            && !before.has_pipe()
    }
    &&& after.controllers() == before.controllers()
    &&& after.active() == before.active()
}

proof fn lemma_bump_once(x: u64, n: nat)
    ensures
        bumped(bumped_by(x, n)) == bumped_by(x, n + 1),
{
    let m: int = 0x1_0000_0000_0000_0000;
    let y = (x + n) % m;
    assert((x + n + 1) % m == if y == m - 1 { 0 } else { y + 1 }) by (nonlinear_arith)
        requires
            m == 0x1_0000_0000_0000_0000,
            y == (x + n) % m,
            x + n >= 0,
    ;
}

/// Seconds without a command after which the health check sends a
/// heartbeat.
pub const HEARTBEAT_AFTER_SECS: u64 = 5;

/// The input side of the emulator: the controllers plugged into it, the
/// pipe that carries commands to it, and the health of that pipe.
pub struct DolphinInputAdapter {
    connected_controllers: Vec<u8>,
    command_sender: Option<tokio::sync::mpsc::UnboundedSender<String>>,
    dolphin_process: Option<tokio::process::Child>,
    is_active: bool,
    connection_health: ConnectionHealth,
    clock_start: std::time::Instant,
    last_command_time: u64,
}

impl DolphinInputAdapter {
    /// The slots with a controller plugged in, in the order they came.
    pub closed spec fn controllers(&self) -> Seq<u8> {
        self.connected_controllers@
    }

    pub closed spec fn has_pipe(&self) -> bool {
        self.command_sender is Some
    }

    pub closed spec fn has_process(&self) -> bool {
        self.dolphin_process is Some
    }

    pub closed spec fn active(&self) -> bool {
        self.is_active
    }

    pub closed spec fn health(&self) -> ConnectionHealth {
        self.connection_health
    }

    /// The time of the last command sent, in whole seconds of the
    /// adapter's own monotonic clock, which starts at its creation.
    pub closed spec fn last_command(&self) -> u64 {
        self.last_command_time
    }

    /// Whole seconds of the adapter's monotonic clock: the time since its
    /// creation (`Instant::elapsed`).
    fn clock_secs(&self) -> u64 {
        nanos_since(&self.clock_start) / 1_000_000_000
    }

    /// No slot is listed twice.
    pub closed spec fn wf(&self) -> bool {
        self.connected_controllers@.no_duplicates()
    }

    /// An adapter with nothing attached: inactive, no controllers, a
    /// healthy record with nothing sent.
    pub fn new() -> (r: Result<Self, InputError>)
        ensures
            r matches Ok(a) && {
                &&& a.wf()
                &&& !a.active()
                &&& a.controllers().len() == 0
                &&& !a.has_pipe()
                &&& !a.has_process()
                &&& a.last_command() == 0
                &&& a.health() == (ConnectionHealth {
                    commands_sent: 0,
                    commands_failed: 0,
                    is_healthy: true,
                })
            },
    {
        Ok(
            DolphinInputAdapter {
                connected_controllers: Vec::new(),
                command_sender: None,
                dolphin_process: None,
                is_active: false,
                connection_health: ConnectionHealth {
                    commands_sent: 0,
                    commands_failed: 0,
                    is_healthy: true,
                },
                clock_start: clock_now(),
                last_command_time: 0,
            },
        )
    }

    /// Takes the pipe to a started emulator (and the emulator process, when
    /// the adapter started it) and becomes active.
    pub fn attach(&mut self, sender: tokio::sync::mpsc::UnboundedSender<String>, process: Option<tokio::process::Child>)
        ensures
            final(self).active(),
            final(self).has_pipe(),
            final(self).has_process() == (process is Some),
            final(self).controllers() == old(self).controllers(),
            final(self).health() == old(self).health(),
            final(self).last_command() == old(self).last_command(),
            final(self).wf() == old(self).wf(),
    {
        self.command_sender = Some(sender);
        self.dolphin_process = process;
        self.is_active = true;
    }

    /// Sends one command down the pipe at time `now` and books the attempt;
    /// a sent command stamps `now` as the time of the last command.
    pub fn send_command_at(&mut self, command: String, now: u64) -> (r: Result<(), InputError>)
        ensures
            send_booked(old(self).has_pipe(), old(self).health(), final(self).health(), r),
            final(self).last_command() == if r is Ok {
                now
            } else {
                old(self).last_command()
            },
            final(self).controllers() == old(self).controllers(),
            final(self).has_pipe() == old(self).has_pipe(),
            final(self).has_process() == old(self).has_process(),
            final(self).active() == old(self).active(),
            final(self).wf() == old(self).wf(),
    {
        let outcome = match &self.command_sender {
            None => None,
            Some(sender) => Some(send_on_channel(sender, command)),
        };
        let r = record_send(&mut self.connection_health, outcome);
        if r.is_ok() {
            self.last_command_time = now;
        }
        r
    }

    /// Sends one command down the pipe now, by the adapter's clock.
    pub fn send_command(&mut self, command: String) -> (r: Result<(), InputError>)
        ensures
            send_booked(old(self).has_pipe(), old(self).health(), final(self).health(), r),
            final(self).controllers() == old(self).controllers(),
            final(self).has_pipe() == old(self).has_pipe(),
            final(self).has_process() == old(self).has_process(),
            final(self).active() == old(self).active(),
            final(self).wf() == old(self).wf(),
    {
        let now = self.clock_secs();
        self.send_command_at(command, now)
    }

    /// Plugs a standard controller into `player_slot` (1 to 4) and tells
    /// the emulator so; a slot outside that range is refused and nothing
    /// changes. The slot counts as plugged in even when the command fails.
    pub fn connect_controller(&mut self, player_slot: u8) -> (r: Result<(), InputError>)
        requires
            old(self).wf(),
        ensures
            final(self).wf(),
            !valid_slot(player_slot) ==> r == Err::<(), InputError>(
                InputError::InvalidPlayer { player: player_slot },
            ) && final(self).controllers() == old(self).controllers() && final(self).health()
                == old(self).health(),
            valid_slot(player_slot) ==> {
                &&& final(self).controllers() == if old(self).controllers().contains(player_slot) {
                    old(self).controllers()
                } else {
                    old(self).controllers().push(player_slot)
                }
                &&& send_booked(old(self).has_pipe(), old(self).health(), final(self).health(), r)
            },
            final(self).has_pipe() == old(self).has_pipe(),
            final(self).has_process() == old(self).has_process(),
            final(self).active() == old(self).active(),
    {
        let command = match connect_command(player_slot) {
            Ok(c) => c,
            Err(e) => {
                return Err(e);
            },
        };
        if !self.is_connected(player_slot) {
            let ghost before = self.connected_controllers@;
            self.connected_controllers.push(player_slot);
            proof {
                assert forall|a: int, b: int|
                    0 <= a < self.connected_controllers@.len() && 0 <= b
                        < self.connected_controllers@.len() && a != b implies self.connected_controllers@[a]
                    != self.connected_controllers@[b] by {
                    if a == before.len() as int {
                        assert(!before.contains(player_slot));
                        assert(self.connected_controllers@[b] == before[b]);
                    } else if b == before.len() as int {
                        assert(!before.contains(player_slot));
                        assert(self.connected_controllers@[a] == before[a]);
                    }
                }
            }
        }
        self.send_command(command)
    }

    /// Whether a controller is plugged into `player_slot`.
    pub fn is_connected(&self, player_slot: u8) -> (b: bool)
        ensures
            b == self.controllers().contains(player_slot),
    {
        let mut i: usize = 0;
        while i < self.connected_controllers.len()
            invariant
                i <= self.connected_controllers@.len(),
                forall|j: int| 0 <= j < i ==> #[trigger] self.connected_controllers@[j] != player_slot,
            decreases self.connected_controllers@.len() - i,
        {
            if self.connected_controllers[i] == player_slot {
                return true;
            }
            i = i + 1;
        }
        false
    }

    /// Unplugs the controller of `player_slot`, if there is one, and tells
    /// the emulator so.
    pub fn disconnect_controller(&mut self, player_slot: u8) -> (r: Result<(), InputError>)
        requires
            old(self).wf(),
        ensures
            final(self).wf(),
            old(self).controllers().contains(player_slot) ==> {
                &&& exists|i: int|
                    0 <= i < old(self).controllers().len() && #[trigger] old(self).controllers()[i]
                        == player_slot && final(self).controllers() == old(self).controllers().remove(i)
                &&& send_booked(old(self).has_pipe(), old(self).health(), final(self).health(), r)
            },
            !old(self).controllers().contains(player_slot) ==> r is Ok && final(self).health()
                == old(self).health() && final(self).controllers() == old(self).controllers(),
            !final(self).controllers().contains(player_slot),
            final(self).has_pipe() == old(self).has_pipe(),
            final(self).has_process() == old(self).has_process(),
            final(self).active() == old(self).active(),
    {
        let mut i: usize = 0;
        while i < self.connected_controllers.len()
            invariant
                i <= self.connected_controllers@.len(),
                self.connected_controllers@ == old(self).connected_controllers@,
                self.connected_controllers@.no_duplicates(),
                self.command_sender == old(self).command_sender,
                self.dolphin_process == old(self).dolphin_process,
                self.is_active == old(self).is_active,
                self.connection_health == old(self).connection_health,
                forall|j: int| 0 <= j < i ==> #[trigger] self.connected_controllers@[j] != player_slot,
            decreases self.connected_controllers@.len() - i,
        {
            if self.connected_controllers[i] == player_slot {
                let ghost before = self.connected_controllers@;
                self.connected_controllers.remove(i);
                proof {
                    assert(self.connected_controllers@ =~= before.remove(i as int));
                    assert forall|a: int, b: int|
                        0 <= a < self.connected_controllers@.len() && 0 <= b
                            < self.connected_controllers@.len() && a != b implies self.connected_controllers@[a]
                        != self.connected_controllers@[b] by {
                        let oa = if a < i { a } else { a + 1 };
                        let ob = if b < i { b } else { b + 1 };
                        assert(self.connected_controllers@[a] == before[oa]);
                        assert(self.connected_controllers@[b] == before[ob]);
                    }
                    assert forall|k: int|
                        0 <= k < self.connected_controllers@.len() implies self.connected_controllers@[k]
                        != player_slot by {
                        let ok = if k < i { k } else { k + 1 };
                        assert(self.connected_controllers@[k] == before[ok]);
                        assert(ok != i);
                    }
                }
                return self.send_command(disconnect_command(player_slot));
            }
            i = i + 1;
        }
        Ok(())
    }

    /// Sends button and D-pad commands in order, plugging in the
    /// controller of a button's player first where none is; stops at the
    /// first failure. An inactive adapter refuses them all.
    pub fn send_commands(&mut self, commands: Vec<DigitalCommand>) -> (r: Result<(), InputError>)
        requires
            old(self).wf(),
        ensures
            final(self).wf(),
            !old(self).active() ==> r == Err::<(), InputError>(InputError::AdapterNotInitialized)
                && final(self).controllers() == old(self).controllers() && final(self).health()
                == old(self).health(),
            old(self).active() && !old(self).has_pipe() && commands@.len() > 0 ==> r is Err,
            old(self).active() && commands@.len() == 0 ==> r is Ok && final(self).controllers()
                == old(self).controllers() && final(self).health() == old(self).health(),
            r == Err::<(), InputError>(InputError::AdapterNotInitialized) ==> !old(self).active() || (
            !old(self).has_pipe() && commands@.len() > 0),
            old(self).active() && r is Err ==> exists|i: int|
                0 <= i < commands@.len() && #[trigger] stopped_at(
                    old(self).has_pipe(),
                    old(self).controllers(),
                    old(self).health(),
                    commands@,
                    i,
                    final(self).controllers(),
                    final(self).health(),
                    r,
                ),
            r is Ok ==> forall|i: int|
                0 <= i < commands@.len() ==> (#[trigger] commands@[i] matches DigitalCommand::ButtonPress {
                    player,
                    ..
                } ==> final(self).controllers().contains(player)),
            r is Ok ==> {
                let (slots, sent) = walk_commands(old(self).controllers(), commands@);
                &&& final(self).controllers() == slots
                &&& final(self).health() == health_after(old(self).health(), sent)
            },
            final(self).has_pipe() == old(self).has_pipe(),
            final(self).active() == old(self).active(),
    {
        if !self.is_active {
            return Err(InputError::AdapterNotInitialized);
        }
        let mut i: usize = 0;
        while i < commands.len()
            invariant
                i <= commands@.len(),
                self.wf(),
                self.is_active,
                old(self).is_active,
                self.has_pipe() == old(self).has_pipe(),
                !self.has_pipe() ==> i == 0,
                forall|k: int|
                    0 <= k < i ==> (#[trigger] commands@[k] matches DigitalCommand::ButtonPress {
                        player,
                        ..
                    } ==> self.controllers().contains(player)),
                self.controllers() == walk_commands(old(self).controllers(), commands@.take(i as int)).0,
                self.health() == health_after(
                    old(self).health(),
                    walk_commands(old(self).controllers(), commands@.take(i as int)).1,
                ),
            decreases commands@.len() - i,
        {
            let ghost slots_before = self.controllers();
            let ghost health_before = self.health();
            let ghost walked = walk_commands(old(self).controllers(), commands@.take(i as int));
            proof {
                assert(commands@.take(i + 1).drop_last() =~= commands@.take(i as int));
                assert(commands@.take(i + 1).last() == commands@[i as int]);
                lemma_bump_once(old(self).health().commands_sent, walked.1);
                lemma_bump_once(old(self).health().commands_sent, walked.1 + 1);
            }
            let text = match commands[i] {
                DigitalCommand::ButtonPress { player, button, pressed } => {
                    if !self.is_connected(player) {
                        match self.connect_controller(player) {
                            Ok(()) => {},
                            Err(e) => {
                                proof {
                                    assert(stopped_at(
                                        old(self).has_pipe(),
                                        old(self).controllers(),
                                        old(self).health(),
                                        commands@,
                                        i as int,
                                        self.controllers(),
                                        self.health(),
                                        Err(e),
                                    ));
                                }
                                return Err(e);
                            },
                        }
                        proof {
                            lemma_push_keeps(slots_before, player);
                        }
                    }
                    format_button_command(player, button, pressed)
                },
                DigitalCommand::DPadInput { player, up, down, left, right } => {
                    format_dpad_command(player, up, down, left, right)
                },
            };
            assert(forall|p: u8| slots_before.contains(p) ==> self.controllers().contains(p));
            assert(commands@[i as int] matches DigitalCommand::ButtonPress { player, .. }
                ==> self.controllers().contains(player));
            let ghost health_mid = self.health();
            match self.send_command(text) {
                Ok(()) => {},
                Err(e) => {
                    proof {
                        assert(stopped_at(
                            old(self).has_pipe(),
                            old(self).controllers(),
                            old(self).health(),
                            commands@,
                            i as int,
                            self.controllers(),
                            self.health(),
                            Err(e),
                        ));
                    }
                    return Err(e);
                },
            }
            proof {
                assert forall|k: int|
                    0 <= k < i + 1 implies (#[trigger] commands@[k] matches DigitalCommand::ButtonPress {
                        player,
                        ..
                    } ==> self.controllers().contains(player)) by {
                    match commands@[k] {
                        DigitalCommand::ButtonPress { player, .. } => {
                            if k < i {
                                assert(slots_before.contains(player));
                            }
                        },
                        _ => {},
                    }
                }
            }
            i = i + 1;
        }
        assert(commands@.take(commands@.len() as int) =~= commands@);
        Ok(())
    }

    /// The health of the pipe at time `now`: after more than five seconds
    /// without a command a heartbeat is sent first, and a failed heartbeat
    /// marks the pipe unhealthy.
    pub fn check_health_at(&mut self, now: u64) -> (healthy: bool)
        requires
            old(self).wf(),
        ensures
            final(self).wf(),
            healthy == final(self).health().is_healthy,
            checked_at(*old(self), *final(self), now),
    {
        let idle = if now >= self.last_command_time {
            now - self.last_command_time
        } else {
            0
        };
        if idle > HEARTBEAT_AFTER_SECS {
            match self.send_command_at(String::from_str("HEARTBEAT"), now) {
                Ok(()) => {},
                Err(_) => {
                    self.connection_health.is_healthy = false;
                },
            }
        }
        self.connection_health.is_healthy
    }

    /// The health of the pipe now, by the adapter's clock.
    pub fn check_health(&mut self) -> (healthy: bool)
        requires
            old(self).wf(),
        ensures
            final(self).wf(),
            healthy == final(self).health().is_healthy,
            exists|now: u64| #[trigger] checked_at(*old(self), *final(self), now),
    {
        let now = self.clock_secs();
        self.check_health_at(now)
    }

    /// Whether the adapter is active, how many controllers are plugged in,
    /// and whether it holds the emulator process.
    pub fn get_status(&self) -> (s: AdapterStatus)
        ensures
            s == (AdapterStatus {
                is_active: self.active(),
                connected_controllers: self.controllers().len() as usize,
                has_dolphin_process: self.has_process(),
            }),
    {
        AdapterStatus {
            is_active: self.is_active,
            connected_controllers: self.connected_controllers.len(),
            has_dolphin_process: self.dolphin_process.is_some(),
        }
    }

    /// Shuts the adapter down: it becomes inactive, every controller is
    /// unplugged (stopping at the first failure), the pipe is dropped, and
    /// the emulator process, if the adapter held it, is handed back to be
    /// stopped.
    pub fn shutdown(&mut self) -> (r: Result<Option<tokio::process::Child>, InputError>)
        requires
            old(self).wf(),
        ensures
            final(self).wf(),
            !final(self).active(),
            r is Ok ==> {
                &&& final(self).controllers().len() == 0
                &&& !final(self).has_pipe()
                &&& !final(self).has_process()
                &&& (r matches Ok(p) && (p is Some <==> old(self).has_process()))
            },
            old(self).controllers().len() == 0 ==> r is Ok,
            r is Err ==> old(self).controllers().len() > 0,
            (r == Err::<Option<tokio::process::Child>, InputError>(InputError::AdapterNotInitialized)) <==> (
            old(self).controllers().len() > 0 && !old(self).has_pipe()),
            r is Err && old(self).has_pipe() ==> r matches Err(InputError::CommandSendFailed { .. }),
            r is Err ==> final(self).has_pipe() == old(self).has_pipe() && final(self).has_process()
                == old(self).has_process(),
    {
        self.is_active = false;
        while self.connected_controllers.len() > 0
            invariant
                self.wf(),
                !self.is_active,
                self.dolphin_process is Some <==> old(self).dolphin_process is Some,
                self.has_pipe() == old(self).has_pipe(),
                self.has_process() == old(self).has_process(),
                self.controllers().len() > 0 ==> old(self).controllers().len() > 0,
                !old(self).has_pipe() ==> self.controllers() == old(self).controllers(),
            decreases self.connected_controllers@.len(),
        {
            let slot = self.connected_controllers[0];
            let ghost before = self.connected_controllers@;
            match self.disconnect_controller(slot) {
                Ok(()) => {},
                Err(e) => {
                    return Err(e);
                },
            }
            proof {
                assert(before[0] == slot);
                assert(before.contains(slot));
            }
        }
        self.command_sender = None;
        let process = self.dolphin_process.take();
        Ok(process)
    }
}

/// Appending keeps every slot and adds the new one.
proof fn lemma_push_keeps(s: Seq<u8>, x: u8)
    ensures
        s.push(x).contains(x),
        forall|p: u8| s.contains(p) ==> s.push(x).contains(p),
{
    assert(s.push(x)[s.len() as int] == x);
    assert forall|p: u8| s.contains(p) implies s.push(x).contains(p) by {
        let k = choose|k: int| 0 <= k < s.len() && s[k] == p;
        assert(s.push(x)[k] == p);
    }
}

} // verus!
