//! Conversion of client button states to emulator commands, and the
//! bounded buffer that holds commands until they are sent.

use std::collections::VecDeque;
use vstd::prelude::*;

verus! {

/// Buttons of the emulated GameCube or Wii controller.
#[derive(Debug, Clone, Copy, PartialEq, Eq)]
pub enum DolphinButton {
    A,
    B,
    X,
    Y,
    Z,
    L,
    R,
    Start,
    Up,
    Down,
    Left,
    Right,
}

/// Analog sticks of the emulated controller.
#[derive(Debug, Clone, Copy, PartialEq, Eq)]
pub enum AnalogStick {
    /// The left stick.
    Main,
    /// The right stick.
    CStick,
}

/// Counters of the input processor; times in nanoseconds.
#[derive(Debug, Clone, Copy, PartialEq, Eq)]
pub struct ProcessorStats {
    pub packets_processed: u64,
    pub commands_sent: u64,
    pub commands_dropped: u64,
    pub total_processing_time_ns: u64,
    pub average_processing_time_ns: u64,
}

/// The emulated buttons that the client's A, B, X, Y, L, R, back and start
/// buttons press.
#[derive(Debug, Clone, Copy, PartialEq, Eq)]
pub struct ButtonLayout {
    pub a_button: DolphinButton,
    pub b_button: DolphinButton,
    pub x_button: DolphinButton,
    pub y_button: DolphinButton,
    pub z_button: DolphinButton,
    pub l_button: DolphinButton,
    pub r_button: DolphinButton,
    pub start_button: DolphinButton,
}

/// Digital controller commands.
#[derive(Debug, Clone, Copy, PartialEq, Eq)]
pub enum DigitalCommand {
    ButtonPress { player: u8, button: DolphinButton, pressed: bool },
    DPadInput { player: u8, up: bool, down: bool, left: bool, right: bool },
}

/// Whether bit `mask` is set in the client's button flags.
pub open spec fn flag_set(flags: u16, mask: u16) -> bool {
    flags & mask != 0
}

/// The commands for one packet's buttons: a press or release of each mapped
/// button, in the order A (0x1000), B (0x2000), X (0x4000), Y (0x8000), L
/// (0x0100), R (0x0200), back as Z (0x0020), start (0x0010), then the D-pad
/// from bits 0x1 (up), 0x2 (down), 0x4 (left) and 0x8 (right).
pub open spec fn button_commands(player: u8, layout: ButtonLayout, flags: u16) -> Seq<DigitalCommand> {
    seq![
        DigitalCommand::ButtonPress { player, button: layout.a_button, pressed: flag_set(flags, 0x1000) },
        DigitalCommand::ButtonPress { player, button: layout.b_button, pressed: flag_set(flags, 0x2000) },
        DigitalCommand::ButtonPress { player, button: layout.x_button, pressed: flag_set(flags, 0x4000) },
        DigitalCommand::ButtonPress { player, button: layout.y_button, pressed: flag_set(flags, 0x8000) },
        DigitalCommand::ButtonPress { player, button: layout.l_button, pressed: flag_set(flags, 0x0100) },
        DigitalCommand::ButtonPress { player, button: layout.r_button, pressed: flag_set(flags, 0x0200) },
        DigitalCommand::ButtonPress { player, button: layout.z_button, pressed: flag_set(flags, 0x0020) },
        DigitalCommand::ButtonPress {
            player,
            button: layout.start_button,
            pressed: flag_set(flags, 0x0010),
        },
        DigitalCommand::DPadInput {
            player,
            up: flag_set(flags, 0x0001),
            down: flag_set(flags, 0x0002),
            left: flag_set(flags, 0x0004),
            right: flag_set(flags, 0x0008),
        },
    ]
}

/// Each mapped button follows its own bit of the client's flags, whatever
/// the layout: A 0x1000, B 0x2000, X 0x4000, Y 0x8000, L 0x0100, R 0x0200,
/// Z 0x0020 and start 0x0010, in that order, then the D-pad from bits 0x1
/// (up), 0x2 (down), 0x4 (left) and 0x8 (right), all for `player`.
pub proof fn lemma_buttons_follow_their_bits(player: u8, layout: ButtonLayout, flags: u16)
    ensures
        button_commands(player, layout, flags).len() == 9,
        button_commands(player, layout, flags)[0] == (DigitalCommand::ButtonPress {
            player,
            button: layout.a_button,
            pressed: flags & 0x1000u16 != 0,
        }),
        button_commands(player, layout, flags)[1] == (DigitalCommand::ButtonPress {
            player,
            button: layout.b_button,
            pressed: flags & 0x2000u16 != 0,
        }),
        button_commands(player, layout, flags)[2] == (DigitalCommand::ButtonPress {
            player,
            button: layout.x_button,
            pressed: flags & 0x4000u16 != 0,
        }),
        button_commands(player, layout, flags)[3] == (DigitalCommand::ButtonPress {
            player,
            button: layout.y_button,
            pressed: flags & 0x8000u16 != 0,
        }),
        button_commands(player, layout, flags)[4] == (DigitalCommand::ButtonPress {
            player,
            button: layout.l_button,
            pressed: flags & 0x0100u16 != 0,
        }),
        button_commands(player, layout, flags)[5] == (DigitalCommand::ButtonPress {
            player,
            button: layout.r_button,
            pressed: flags & 0x0200u16 != 0,
        }),
        button_commands(player, layout, flags)[6] == (DigitalCommand::ButtonPress {
            player,
            button: layout.z_button,
            pressed: flags & 0x0020u16 != 0,
        }),
        button_commands(player, layout, flags)[7] == (DigitalCommand::ButtonPress {
            player,
            button: layout.start_button,
            pressed: flags & 0x0010u16 != 0,
        }),
        button_commands(player, layout, flags)[8] == (DigitalCommand::DPadInput {
            player,
            up: flags & 0x0001u16 != 0,
            down: flags & 0x0002u16 != 0,
            left: flags & 0x0004u16 != 0,
            right: flags & 0x0008u16 != 0,
        }),
{
    let s = button_commands(player, layout, flags);
    assert(s.len() == 9);
    assert(s[0] is ButtonPress && s[1] is ButtonPress && s[2] is ButtonPress);
    assert(s[3] is ButtonPress && s[4] is ButtonPress && s[5] is ButtonPress);
    assert(s[6] is ButtonPress && s[7] is ButtonPress && s[8] is DPadInput);
}

/// Pressing only X gives exactly one pressed button, the layout's X
/// button, and releasing everything else; toggling bit 0x4000 changes the
/// X command and no other.
pub proof fn lemma_x_bit_moves_only_x(player: u8, layout: ButtonLayout, flags: u16)
    ensures
        forall|k: int|
            0 <= k < 9 && k != 2 ==> #[trigger] button_commands(player, layout, flags ^ 0x4000u16)[k]
                == button_commands(player, layout, flags)[k],
        button_commands(player, layout, flags ^ 0x4000u16)[2] != button_commands(player, layout, flags)[2],
{
    let g = flags ^ 0x4000u16;
    assert(g & 0x1000u16 == flags & 0x1000u16) by (bit_vector)
        requires
            g == flags ^ 0x4000u16,
    ;
    assert(g & 0x2000u16 == flags & 0x2000u16) by (bit_vector)
        requires
            g == flags ^ 0x4000u16,
    ;
    assert(g & 0x8000u16 == flags & 0x8000u16) by (bit_vector)
        requires
            g == flags ^ 0x4000u16,
    ;
    assert(g & 0x0100u16 == flags & 0x0100u16) by (bit_vector)
        requires
            g == flags ^ 0x4000u16,
    ;
    assert(g & 0x0200u16 == flags & 0x0200u16) by (bit_vector)
        requires
            g == flags ^ 0x4000u16,
    ;
    assert(g & 0x0020u16 == flags & 0x0020u16) by (bit_vector)
        requires
            g == flags ^ 0x4000u16,
    ;
    assert(g & 0x0010u16 == flags & 0x0010u16) by (bit_vector)
        requires
            g == flags ^ 0x4000u16,
    ;
    assert(g & 0x000fu16 == flags & 0x000fu16) by (bit_vector)
        requires
            g == flags ^ 0x4000u16,
    ;
    assert((g & 0x0001u16 != 0) == (flags & 0x0001u16 != 0) && (g & 0x0002u16 != 0) == (flags & 0x0002u16
        != 0) && (g & 0x0004u16 != 0) == (flags & 0x0004u16 != 0) && (g & 0x0008u16 != 0) == (flags
        & 0x0008u16 != 0)) by (bit_vector)
        requires
            g == flags ^ 0x4000u16,
    ;
    assert((g & 0x4000u16 != 0) != (flags & 0x4000u16 != 0)) by (bit_vector)
        requires
            g == flags ^ 0x4000u16,
    ;
    lemma_buttons_follow_their_bits(player, layout, flags);
    lemma_buttons_follow_their_bits(player, layout, g);
}

/// Converts the client's button flags into emulator commands.
pub fn convert_buttons(player_slot: u8, layout: &ButtonLayout, button_flags: u16) -> (v: Vec<DigitalCommand>)
    ensures
        v@ == button_commands(player_slot, *layout, button_flags),
{
    let masks: [u16; 8] = [0x1000, 0x2000, 0x4000, 0x8000, 0x0100, 0x0200, 0x0020, 0x0010];
    let buttons: [DolphinButton; 8] = [
        layout.a_button,
        layout.b_button,
        layout.x_button,
        layout.y_button,
        layout.l_button,
        layout.r_button,
        layout.z_button,
        layout.start_button,
    ];
    let ghost expected = button_commands(player_slot, *layout, button_flags);
    let mut commands: Vec<DigitalCommand> = Vec::new();
    let mut i: usize = 0;
    while i < 8
        invariant
            i <= 8,
            masks@ == seq![0x1000u16, 0x2000u16, 0x4000u16, 0x8000u16, 0x0100u16, 0x0200u16, 0x0020u16, 0x0010u16],
            buttons@ == seq![
                layout.a_button,
                layout.b_button,
                layout.x_button,
                layout.y_button,
                layout.l_button,
                layout.r_button,
                layout.z_button,
                layout.start_button,
            ],
            expected == button_commands(player_slot, *layout, button_flags),
            commands@ == expected.take(i as int),
        decreases 8 - i,
    {
        let is_pressed = (button_flags & masks[i]) != 0;
        commands.push(DigitalCommand::ButtonPress { player: player_slot, button: buttons[i], pressed: is_pressed });
        assert(commands@ =~= expected.take(i + 1));
        i = i + 1;
    }
    commands.push(
        DigitalCommand::DPadInput {
            player: player_slot,
            up: (button_flags & 0x0001) != 0,
            down: (button_flags & 0x0002) != 0,
            left: (button_flags & 0x0004) != 0,
            right: (button_flags & 0x0008) != 0,
        },
    );
    assert(commands@ =~= expected);
    commands
}

/// Model of a command buffer: the waiting commands, oldest first, and the
/// number it holds at most.
pub struct CommandBufferModel<T> {
    pub commands: Seq<T>,
    pub capacity: nat,
}

/// A bounded FIFO of commands: when it is full, the oldest command is
/// dropped to make room.
pub struct CommandBuffer<T> {
    queue: VecDeque<T>,
    capacity: usize,
    commands_sent: u64,
    commands_dropped: u64,
}

impl<T> View for CommandBuffer<T> {
    type V = CommandBufferModel<T>;

    closed spec fn view(&self) -> CommandBufferModel<T> {
        CommandBufferModel { commands: self.queue@, capacity: self.capacity as nat }
    }
}

/// A counter after one more event, wrapping after the largest value.
pub open spec fn bumped(x: u64) -> u64 {
    if x == u64::MAX {
        0
    } else {
        (x + 1) as u64
    }
}

impl<T> CommandBuffer<T> {
    /// The buffer never holds more than its capacity, which is positive.
    pub closed spec fn wf(&self) -> bool {
        &&& self.capacity > 0
        &&& self.queue@.len() <= self.capacity
    }

    /// Commands handed out so far, modulo 2^64.
    pub closed spec fn sent(&self) -> u64 {
        self.commands_sent
    }

    /// Commands dropped so far, modulo 2^64.
    pub closed spec fn dropped(&self) -> u64 {
        self.commands_dropped
    }

    /// An empty buffer for up to `capacity` commands.
    pub fn with_capacity(capacity: usize) -> (b: Self)
        requires
            capacity > 0,
        ensures
            b.wf(),
            b@.commands == Seq::<T>::empty(),
            b@.capacity == capacity,
            b.sent() == 0,
            b.dropped() == 0,
    {
        CommandBuffer { queue: VecDeque::new(), capacity, commands_sent: 0, commands_dropped: 0 }
    }

    /// An empty buffer for up to 1000 commands.
    pub fn new() -> (b: Self)
        ensures
            b.wf(),
            b@.commands == Seq::<T>::empty(),
            b@.capacity == 1000,
            b.sent() == 0,
            b.dropped() == 0,
    {
        Self::with_capacity(1000)
    }

    /// Appends a command; a full buffer first drops its oldest command and
    /// counts it.
    pub fn push(&mut self, command: T)
        requires
            old(self).wf(),
        ensures
            final(self).wf(),
            final(self)@.capacity == old(self)@.capacity,
            final(self).sent() == old(self).sent(),
            old(self)@.commands.len() == old(self)@.capacity ==> {
                &&& final(self)@.commands == old(self)@.commands.drop_first().push(command)
                &&& final(self).dropped() == bumped(old(self).dropped())
            },
            old(self)@.commands.len() < old(self)@.capacity ==> {
                &&& final(self)@.commands == old(self)@.commands.push(command)
                &&& final(self).dropped() == old(self).dropped()
            },
    {
        if self.queue.len() >= self.capacity {
            let _oldest = self.queue.pop_front();
            self.commands_dropped = self.commands_dropped.wrapping_add(1);
        }
        self.queue.push_back(command);
    }

    /// Takes up to `batch_size` of the oldest commands, or `None` when the
    /// buffer is empty.
    pub fn take_batch(&mut self, batch_size: usize) -> (r: Option<Vec<T>>)
        requires
            old(self).wf(),
        ensures
            final(self).wf(),
            final(self)@.capacity == old(self)@.capacity,
            final(self).dropped() == old(self).dropped(),
            old(self)@.commands.len() == 0 ==> r is None && final(self)@ == old(self)@
                && final(self).sent() == old(self).sent(),
            old(self)@.commands.len() > 0 ==> {
                let n = if batch_size < old(self)@.commands.len() {
                    batch_size as int
                } else {
                    old(self)@.commands.len() as int
                };
                &&& r matches Some(v) && v@ == old(self)@.commands.take(n)
                &&& final(self)@.commands == old(self)@.commands.skip(n)
                &&& final(self).sent() == (old(self).sent() + n) % 0x1_0000_0000_0000_0000
            },
    {
        if self.queue.len() == 0 {
            return None;
        }
        let actual = if batch_size < self.queue.len() {
            batch_size
        } else {
            self.queue.len()
        };
        let ghost start = self.queue@;
        let mut commands: Vec<T> = Vec::new();
        let mut i: usize = 0;
        while i < actual
            invariant
                i <= actual,
                actual <= start.len(),
                commands@ == start.take(i as int),
                self.queue@ == start.skip(i as int),
                self.capacity == old(self).capacity,
                self.commands_dropped == old(self).commands_dropped,
                self.commands_sent == old(self).commands_sent,
                self.capacity > 0,
                start.len() <= self.capacity,
            decreases actual - i,
        {
            match self.queue.pop_front() {
                Some(c) => {
                    commands.push(c);
                },
                None => {},
            }
            assert(commands@ =~= start.take(i + 1));
            assert(self.queue@ =~= start.skip(i + 1));
            i = i + 1;
        }
        let sent = self.commands_sent as u128 + actual as u128;
        self.commands_sent = (sent % 0x1_0000_0000_0000_0000) as u64;
        Some(commands)
    }

    /// Takes every waiting command, or `None` when there is none.
    pub fn take_all(&mut self) -> (r: Option<Vec<T>>)
        requires
            old(self).wf(),
        ensures
            final(self).wf(),
            final(self)@.capacity == old(self)@.capacity,
            old(self)@.commands.len() == 0 ==> r is None,
            old(self)@.commands.len() > 0 ==> (r matches Some(v) && v@ == old(self)@.commands
                && final(self)@.commands.len() == 0),
    {
        let n = self.queue.len();
        let r = self.take_batch(n);
        proof {
            assert(old(self)@.commands.take(n as int) =~= old(self)@.commands);
        }
        r
    }

    /// A well-formed buffer holds no more than its capacity, which is
    /// positive.
    pub proof fn lemma_bounded(&self)
        requires
            self.wf(),
        ensures
            self@.commands.len() <= self@.capacity,
            self@.capacity > 0,
    {
    }

    /// Commands handed out so far, modulo 2^64.
    pub fn sent_count(&self) -> (n: u64)
        ensures
            n == self.sent(),
    {
        self.commands_sent
    }

    /// Commands dropped so far, modulo 2^64.
    pub fn dropped_count(&self) -> (n: u64)
        ensures
            n == self.dropped(),
    {
        self.commands_dropped
    }

    /// The number of waiting commands.
    pub fn len(&self) -> (n: usize)
        ensures
            n == self@.commands.len(),
    {
        self.queue.len()
    }
}

} // verus!
