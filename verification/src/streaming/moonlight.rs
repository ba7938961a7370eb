//! Moonlight session settings, the decoding of client control messages and
//! the server's session counts.

use vstd::prelude::*;

verus! {

/// Settings of the Moonlight server.
#[derive(Debug, Clone)]
pub struct ServerConfig {
    pub bind_addr: String,
    pub port: u16,
    pub max_clients: usize,
    pub enable_encryption: bool,
    pub enable_authentication: bool,
    pub stream_timeout_ms: u64,
}

/// Audio codecs a stream can carry.
#[derive(Debug, Clone, Copy, PartialEq, Eq)]
pub enum AudioCodec {
    Opus,
    AAC,
    PCM,
}

/// Audio settings of a stream.
#[derive(Debug, Clone)]
pub struct AudioConfig {
    pub sample_rate: u32,
    pub channels: u16,
    pub bitrate: u32,
    pub codec: AudioCodec,
}

/// Transport settings of a stream; the timeout in milliseconds.
#[derive(Debug, Clone)]
pub struct StreamConfig {
    pub enable_encryption: bool,
    pub enable_authentication: bool,
    pub stream_timeout_ms: u64,
    pub max_packet_size: usize,
    pub buffer_size: usize,
}

/// A raw video frame handed to the server for broadcast.
#[derive(Debug, Clone)]
pub struct VideoFrame {
    pub data: Vec<u8>,
    pub width: u32,
    pub height: u32,
    pub timestamp: u64,
    pub frame_number: u64,
}

/// An encoded audio frame handed to the server for broadcast: its codec
/// and the samples per channel it holds.
#[derive(Debug, Clone)]
pub struct AudioFrame {
    pub data: Vec<u8>,
    pub timestamp: u64,
    pub sample_rate: u32,
    pub channels: u16,
    pub codec: AudioCodec,
    pub samples: usize,
}

/// Where a client session stands.
#[derive(Debug, Clone, Copy, PartialEq, Eq, Structural)]
pub enum SessionState {
    Connecting,
    Handshaking,
    Streaming,
    Paused,
    Disconnecting,
    Terminated,
}

/// The state of a controller as a client reports it.
#[derive(Debug, Clone, Copy, PartialEq, Eq)]
pub struct ControllerInput {
    pub buttons: u32,
    pub left_stick_x: i16,
    pub left_stick_y: i16,
    pub right_stick_x: i16,
    pub right_stick_y: i16,
    pub left_trigger: u8,
    pub right_trigger: u8,
}

/// An input event from a client.
#[derive(Debug, Clone, Copy, PartialEq, Eq)]
pub enum InputEvent {
    KeyDown { key: u32 },
    KeyUp { key: u32 },
    MouseMove { x: i32, y: i32 },
    MouseDown { button: u8 },
    MouseUp { button: u8 },
    MouseWheel { delta: i32 },
    ControllerInput { controller_id: u8, input: ControllerInput },
}

/// What a client announces during the handshake.
#[derive(Debug)]
pub struct ClientCapabilities {
    pub max_resolution: (u32, u32),
    pub supported_codecs: Vec<String>,
    pub audio_codecs: Vec<String>,
    pub max_fps: u32,
    pub supports_hdr: bool,
}

/// The stream settings agreed with a client.
#[derive(Debug, Clone, Copy, PartialEq, Eq)]
pub struct NegotiatedStreamConfig {
    pub video_resolution: (u32, u32),
    pub video_fps: u32,
    pub video_bitrate: u32,
    pub audio_sample_rate: u32,
    pub audio_channels: u32,
}

/// Counts of the server's sessions; the uptime in milliseconds.
#[derive(Debug, Clone, Copy, PartialEq, Eq)]
pub struct ServerStats {
    pub active_sessions: usize,
    pub total_sessions: usize,
    pub is_running: bool,
    pub uptime_ms: u64,
}

/// A control message from a client, decoded.
#[derive(Debug, Clone, Copy, PartialEq, Eq)]
pub enum ControlMessage {
    /// Fewer than four bytes: no message type.
    TooShort,
    /// A controller report (type 0x0C) of at least twenty bytes.
    Controller(ControllerInput),
    /// A controller report cut short of twenty bytes: ignored.
    TruncatedController,
    /// A keepalive (type 0x0A).
    Keepalive,
    /// Any other type.
    Unknown(u32),
}

/// The message type of controller reports.
pub const CONTROLLER_MESSAGE: u32 = 0x0C;

/// The message type of keepalives.
pub const KEEPALIVE_MESSAGE: u32 = 0x0A;

/// Bytes of a controller report.
pub const CONTROLLER_REPORT_BYTES: usize = 20;

/// Four bytes read as a little-endian unsigned number.
pub open spec fn le_u32(d: Seq<u8>, i: int) -> int {
    d[i] + 256 * d[i + 1] + 65536 * d[i + 2] + 16777216 * d[i + 3]
}

/// Two bytes read as a little-endian two's-complement number.
pub open spec fn le_i16(d: Seq<u8>, i: int) -> int {
    let v = d[i] + 256 * d[i + 1];
    if v >= 32768 {
        v - 65536
    } else {
        v
    }
}

/// The controller state at the fixed offsets of a report.
pub open spec fn controller_input_of(d: Seq<u8>) -> ControllerInput {
    ControllerInput {
        buttons: le_u32(d, 4) as u32,
        left_stick_x: le_i16(d, 8) as i16,
        left_stick_y: le_i16(d, 10) as i16,
        right_stick_x: le_i16(d, 12) as i16,
        right_stick_y: le_i16(d, 14) as i16,
        left_trigger: d[16],
        right_trigger: d[17],
    }
}

/// What the bytes `d` of a control message say.
pub open spec fn control_message_of(d: Seq<u8>) -> ControlMessage {
    if d.len() < 4 {
        ControlMessage::TooShort
    } else if le_u32(d, 0) == CONTROLLER_MESSAGE {
        if d.len() >= CONTROLLER_REPORT_BYTES {
            ControlMessage::Controller(controller_input_of(d))
        } else {
            ControlMessage::TruncatedController
        }
    } else if le_u32(d, 0) == KEEPALIVE_MESSAGE {
        ControlMessage::Keepalive
    } else {
        ControlMessage::Unknown(le_u32(d, 0) as u32)
    }
}

fn read_le_u32(d: &[u8], i: usize) -> (r: u32)
    requires
        i + 4 <= d@.len(),
    ensures
        r == le_u32(d@, i as int),
{
    let v: u64 = d[i] as u64 + (d[i + 1] as u64) * 256 + (d[i + 2] as u64) * 65536 + (d[i + 3] as u64)
        * 16777216;
    v as u32
}

fn read_le_i16(d: &[u8], i: usize) -> (r: i16)
    requires
        i + 2 <= d@.len(),
    ensures
        r == le_i16(d@, i as int),
{
    let v: i32 = d[i] as i32 + (d[i + 1] as i32) * 256;
    if v >= 32768 {
        (v - 65536) as i16
    } else {
        v as i16
    }
}

/// Reads a controller report: buttons as a little-endian 32-bit word at
/// byte 4, the four stick axes as little-endian 16-bit words from byte 8,
/// then the two triggers. `None` when the report is shorter than twenty
/// bytes.
pub fn parse_controller_input(data: &[u8]) -> (r: Option<ControllerInput>)
    ensures
        data@.len() < CONTROLLER_REPORT_BYTES ==> r is None,
        data@.len() >= CONTROLLER_REPORT_BYTES ==> r == Some(controller_input_of(data@)),
{
    if data.len() < CONTROLLER_REPORT_BYTES {
        return None;
    }
    Some(
        ControllerInput {
            buttons: read_le_u32(data, 4),
            left_stick_x: read_le_i16(data, 8),
            left_stick_y: read_le_i16(data, 10),
            right_stick_x: read_le_i16(data, 12),
            right_stick_y: read_le_i16(data, 14),
            left_trigger: data[16],
            right_trigger: data[17],
        },
    )
}

/// Decodes a control message: its type is the little-endian word of its
/// first four bytes.
pub fn parse_control_message(data: &[u8]) -> (m: ControlMessage)
    ensures
        m == control_message_of(data@),
{
    if data.len() < 4 {
        return ControlMessage::TooShort;
    }
    let msg_type = read_le_u32(data, 0);
    if msg_type == CONTROLLER_MESSAGE {
        match parse_controller_input(data) {
            Some(input) => ControlMessage::Controller(input),
            None => ControlMessage::TruncatedController,
        }
    } else if msg_type == KEEPALIVE_MESSAGE {
        ControlMessage::Keepalive
    } else {
        ControlMessage::Unknown(msg_type)
    }
}

/// The settings offered to every client: 720p at 60 frames per second and
/// 15 Mbit/s, with 48 kHz stereo audio, whatever the client announced.
pub fn negotiate_stream_config(capabilities: &ClientCapabilities) -> (c: NegotiatedStreamConfig)
    ensures
        c == (NegotiatedStreamConfig {
            video_resolution: (1280, 720),
            video_fps: 60,
            video_bitrate: 15000,
            audio_sample_rate: 48000,
            audio_channels: 2,
        }),
{
    NegotiatedStreamConfig {
        video_resolution: (1280, 720),
        video_fps: 60,
        video_bitrate: 15000,
        audio_sample_rate: 48000,
        audio_channels: 2,
    }
}

/// Whether a new client connection is taken: only while fewer sessions
/// than the configured maximum exist.
pub fn accepts_new_client(config: &ServerConfig, current_sessions: usize) -> (b: bool)
    ensures
        b == (current_sessions < config.max_clients),
{
    current_sessions < config.max_clients
}

/// How many sessions of `s` are streaming.
pub open spec fn streaming_count(s: Seq<(SessionState, u64)>) -> nat
    decreases s.len(),
{
    if s.len() == 0 {
        0
    } else {
        streaming_count(s.drop_last()) + if s.last().0 == SessionState::Streaming {
            1nat
        } else {
            0nat
        }
    }
}

/// The earliest start time of the sessions of `s`; `none` when there are
/// none.
pub open spec fn earliest_start(s: Seq<(SessionState, u64)>, none: u64) -> u64
    decreases s.len(),
{
    if s.len() == 0 {
        none
    } else {
        let rest = earliest_start(s.drop_last(), none);
        if s.len() == 1 {
            s.last().1
        } else if s.last().1 < rest {
            s.last().1
        } else {
            rest
        }
    }
}

/// The time since `start`, zero when `start` lies ahead.
pub open spec fn elapsed(now: u64, start: u64) -> u64 {
    if now >= start {
        (now - start) as u64
    } else {
        0
    }
}

proof fn lemma_streaming_count_bound(s: Seq<(SessionState, u64)>)
    ensures
        streaming_count(s) <= s.len(),
    decreases s.len(),
{
    if s.len() > 0 {
        lemma_streaming_count_bound(s.drop_last());
    }
}

/// The server's counts over its sessions, each given as its state and its
/// start time in milliseconds: how many stream, how many there are, and the
/// time since the earliest started (zero without sessions).
pub fn server_stats(sessions: &Vec<(SessionState, u64)>, is_running: bool, now_ms: u64) -> (r: ServerStats)
    ensures
        r.active_sessions == streaming_count(sessions@),
        r.total_sessions == sessions@.len(),
        r.is_running == is_running,
        r.uptime_ms == elapsed(now_ms, earliest_start(sessions@, now_ms)),
{
    let mut active: usize = 0;
    let mut earliest: u64 = now_ms;
    let mut i: usize = 0;
    while i < sessions.len()
        invariant
            i <= sessions@.len(),
            active == streaming_count(sessions@.subrange(0, i as int)),
            earliest == earliest_start(sessions@.subrange(0, i as int), now_ms),
        decreases sessions@.len() - i,
    {
        let (state, started) = sessions[i];
        proof {
            let next = sessions@.subrange(0, i + 1);
            assert(next.drop_last() =~= sessions@.subrange(0, i as int));
            lemma_streaming_count_bound(sessions@.subrange(0, i as int));
        }
        if state == SessionState::Streaming {
            active = active + 1;
        }
        if i == 0 || started < earliest {
            earliest = started;
        }
        i = i + 1;
    }
    assert(sessions@.subrange(0, sessions@.len() as int) =~= sessions@);
    let uptime_ms = if now_ms >= earliest {
        now_ms - earliest
    } else {
        0
    };
    ServerStats { active_sessions: active, total_sessions: sessions.len(), is_running, uptime_ms }
}

} // verus!
