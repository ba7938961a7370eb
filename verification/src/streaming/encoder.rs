//! Video encoder settings, their validation, the presets handed to each
//! encoder, and the bookkeeping of the encoding queue.

use crate::error::StreamingError;
use crate::streaming::capture::VideoFrame;
use crate::streaming::lock_free::{clock_now, nanos_since};
use std::collections::VecDeque;
use vstd::prelude::*;
use vstd::string::*;

verus! {

/// Encoder implementations.
#[derive(Debug, Clone, Copy, PartialEq, Eq)]
pub enum EncoderType {
    NVENC,
    VAAPI,
    QuickSync,
    Software,
}

/// Video codecs.
#[derive(Debug, Clone, Copy, PartialEq, Eq)]
pub enum VideoCodec {
    H264,
    H265,
    AV1,
}

/// Rate control modes.
#[allow(non_camel_case_types)]
#[derive(Debug, Clone, Copy, PartialEq, Eq)]
pub enum RateControlMode {
    CBR,
    VBR,
    CQP,
    VBR_HQ,
}

/// Speed against quality.
#[derive(Debug, Clone, Copy, PartialEq, Eq)]
pub enum EncoderPreset {
    UltraFast,
    SuperFast,
    VeryFast,
    Faster,
    Fast,
    Medium,
    Slow,
    Slower,
    VerySlow,
    Lossless,
    LosslessHP,
}

/// H.264 profiles.
#[derive(Debug, Clone, Copy, PartialEq, Eq)]
pub enum H264Profile {
    Baseline,
    Main,
    High,
    High444,
}

/// H.264 levels.
#[derive(Debug, Clone, Copy, PartialEq, Eq)]
pub enum H264Level {
    Level3_0,
    Level3_1,
    Level3_2,
    Level4_0,
    Level4_1,
    Level4_2,
    Level5_0,
    Level5_1,
    Level5_2,
}

/// Encoder settings; rates in kbit/s.
#[derive(Debug, Clone, Copy, PartialEq, Eq)]
pub struct EncoderConfig {
    pub encoder_type: EncoderType,
    pub codec: VideoCodec,
    pub bitrate: u32,
    pub max_bitrate: u32,
    pub rate_control: RateControlMode,
    pub preset: EncoderPreset,
    pub profile: H264Profile,
    pub level: H264Level,
    pub gop_size: u32,
    pub b_frames: u32,
    pub ref_frames: u32,
    pub width: u32,
    pub height: u32,
    pub fps: u32,
    pub low_latency: bool,
    pub look_ahead: bool,
    pub adaptive_quantization: bool,
}

impl EncoderConfig {
    /// Software H.264 at 15 Mbit/s (20 at most), constant rate, fast preset,
    /// High profile level 4.1, a keyframe each second at 60 fps 1080p, no B
    /// frames, one reference frame, low latency with adaptive quantization.
    pub open spec fn spec_default() -> Self {
        EncoderConfig {
            encoder_type: EncoderType::Software,
            codec: VideoCodec::H264,
            bitrate: 15000,
            max_bitrate: 20000,
            rate_control: RateControlMode::CBR,
            preset: EncoderPreset::Fast,
            profile: H264Profile::High,
            level: H264Level::Level4_1,
            gop_size: 60,
            b_frames: 0,
            ref_frames: 1,
            width: 1920,
            height: 1080,
            fps: 60,
            low_latency: true,
            look_ahead: false,
            adaptive_quantization: true,
        }
    }
}

impl Default for EncoderConfig {
    fn default() -> (c: Self)
        ensures
            c == EncoderConfig::spec_default(),
    {
        EncoderConfig {
            encoder_type: EncoderType::Software,
            codec: VideoCodec::H264,
            bitrate: 15000,
            max_bitrate: 20000,
            rate_control: RateControlMode::CBR,
            preset: EncoderPreset::Fast,
            profile: H264Profile::High,
            level: H264Level::Level4_1,
            gop_size: 60,
            b_frames: 0,
            ref_frames: 1,
            width: 1920,
            height: 1080,
            fps: 60,
            low_latency: true,
            look_ahead: false,
            adaptive_quantization: true,
        }
    }
}

/// The validation of settings: the first of a zero bitrate, a zero
/// dimension or a zero frame rate is reported.
pub open spec fn validation_error(c: EncoderConfig) -> Option<(Seq<char>, Seq<char>)> {
    if c.bitrate == 0 {
        Some(("bitrate"@, "Bitrate must be greater than 0"@))
    } else if c.width == 0 || c.height == 0 {
        Some(("resolution"@, "Resolution must be greater than 0"@))
    } else if c.fps == 0 {
        Some(("fps"@, "FPS must be greater than 0"@))
    } else {
        None
    }
}

/// A configuration error naming the field and the reason.
fn config_error(field: &str, reason: &str) -> (e: StreamingError)
    ensures
        e matches StreamingError::ConfigurationError { field: f, reason: r } && f@ == field@ && r@
            == reason@,
{
    StreamingError::ConfigurationError { field: String::from_str(field), reason: String::from_str(reason) }
}

/// Checks that the bitrate, the dimensions and the frame rate are positive.
pub fn validate_config(config: &EncoderConfig) -> (r: Result<(), StreamingError>)
    ensures
        validation_error(*config) is None ==> r is Ok,
        validation_error(*config) matches Some(e) ==> (r matches Err(
            StreamingError::ConfigurationError { field, reason },
        ) && field@ == e.0 && reason@ == e.1),
{
    if config.bitrate == 0 {
        return Err(config_error("bitrate", "Bitrate must be greater than 0"));
    }
    if config.width == 0 || config.height == 0 {
        return Err(config_error("resolution", "Resolution must be greater than 0"));
    }
    if config.fps == 0 {
        return Err(config_error("fps", "FPS must be greater than 0"));
    }
    Ok(())
}

/// The GStreamer element that encodes H.264 for an encoder type.
pub fn encoder_element_name(t: EncoderType) -> (s: &'static str)
    ensures
        s@ == match t {
            EncoderType::NVENC => "nvh264enc"@,
            EncoderType::VAAPI => "vaapih264enc"@,
            EncoderType::QuickSync => "mfh264enc"@,
            EncoderType::Software => "x264enc"@,
        },
{
    match t {
        EncoderType::NVENC => "nvh264enc",
        EncoderType::VAAPI => "vaapih264enc",
        EncoderType::QuickSync => "mfh264enc",
        EncoderType::Software => "x264enc",
    }
}

/// The NVENC preset of an encoder preset.
pub open spec fn nvenc_preset_of(p: EncoderPreset) -> Seq<char> {
    match p {
        EncoderPreset::UltraFast => "hp"@,
        EncoderPreset::Slow | EncoderPreset::LosslessHP => "lossless-hp"@,
        EncoderPreset::Slower | EncoderPreset::VerySlow | EncoderPreset::Lossless =>
            "lossless-hq"@,
        _ => "hq"@,
    }
}

/// The NVENC preset of an encoder preset.
pub fn nvenc_preset(p: EncoderPreset) -> (s: &'static str)
    ensures
        s@ == nvenc_preset_of(p),
{
    match p {
        EncoderPreset::UltraFast => "hp",
        EncoderPreset::SuperFast => "hq",
        EncoderPreset::VeryFast => "hq",
        EncoderPreset::Faster => "hq",
        EncoderPreset::Fast => "hq",
        EncoderPreset::Medium => "hq",
        EncoderPreset::Slow => "lossless-hp",
        EncoderPreset::Slower => "lossless-hq",
        EncoderPreset::VerySlow => "lossless-hq",
        EncoderPreset::Lossless => "lossless-hq",
        EncoderPreset::LosslessHP => "lossless-hp",
    }
}

/// The NVENC rate control of a mode.
pub fn nvenc_rate_control(m: RateControlMode) -> (s: &'static str)
    ensures
        s@ == match m {
            RateControlMode::CBR => "cbr"@,
            RateControlMode::VBR => "vbr"@,
            RateControlMode::CQP => "cqp"@,
            RateControlMode::VBR_HQ => "vbr-hq"@,
        },
{
    match m {
        RateControlMode::CBR => "cbr",
        RateControlMode::VBR => "vbr",
        RateControlMode::CQP => "cqp",
        RateControlMode::VBR_HQ => "vbr-hq",
    }
}

/// The VAAPI rate control of a mode; high-quality VBR is plain VBR there.
pub fn vaapi_rate_control(m: RateControlMode) -> (s: &'static str)
    ensures
        s@ == match m {
            RateControlMode::CBR => "cbr"@,
            RateControlMode::CQP => "cqp"@,
            _ => "vbr"@,
        },
{
    match m {
        RateControlMode::CBR => "cbr",
        RateControlMode::VBR => "vbr",
        RateControlMode::CQP => "cqp",
        RateControlMode::VBR_HQ => "vbr",
    }
}

/// The x264 speed preset, 1 (fastest) to 9; the lossless presets use 5.
pub fn x264_preset(p: EncoderPreset) -> (n: u32)
    ensures
        n == match p {
            EncoderPreset::UltraFast => 1u32,
            EncoderPreset::SuperFast => 2,
            EncoderPreset::VeryFast => 3,
            EncoderPreset::Faster => 4,
            EncoderPreset::Fast => 5,
            EncoderPreset::Medium => 6,
            EncoderPreset::Slow => 7,
            EncoderPreset::Slower => 8,
            EncoderPreset::VerySlow => 9,
            _ => 5,
        },
{
    match p {
        EncoderPreset::UltraFast => 1,
        EncoderPreset::SuperFast => 2,
        EncoderPreset::VeryFast => 3,
        EncoderPreset::Faster => 4,
        EncoderPreset::Fast => 5,
        EncoderPreset::Medium => 6,
        EncoderPreset::Slow => 7,
        EncoderPreset::Slower => 8,
        EncoderPreset::VerySlow => 9,
        _ => 5,
    }
}

/// An encoded frame; the encoding time in nanoseconds.
#[derive(Debug, Clone)]
pub struct EncodedFrame {
    pub data: Vec<u8>,
    pub timestamp: u64,
    pub frame_number: u64,
    pub is_keyframe: bool,
    pub encoding_time_ns: u64,
    pub size_bytes: usize,
}

/// Encoder counters; the average time in nanoseconds.
#[derive(Debug, Clone, Copy, PartialEq, Eq)]
pub struct EncoderCounters {
    pub frames_encoded: u64,
    pub keyframes_encoded: u64,
    pub total_bytes: u64,
    pub dropped_frames: u64,
    pub average_encoding_time_ns: u64,
}

/// Frames waiting for the encoder at most.
pub const MAX_QUEUED_FRAMES: usize = 10;

/// A counter after one more event, wrapping after the largest value.
pub open spec fn bumped(x: u64) -> u64 {
    if x == u64::MAX {
        0
    } else {
        (x + 1) as u64
    }
}

/// The frames a queue keeps of `q`: the newest `MAX_QUEUED_FRAMES`.
pub open spec fn newest_frames(q: Seq<VideoFrame>) -> Seq<VideoFrame> {
    if q.len() > MAX_QUEUED_FRAMES {
        q.skip(q.len() - MAX_QUEUED_FRAMES)
    } else {
        q
    }
}

/// How many frames of `q` the queue gives up.
pub open spec fn overflow(q: Seq<VideoFrame>) -> nat {
    if q.len() > MAX_QUEUED_FRAMES {
        (q.len() - MAX_QUEUED_FRAMES) as nat
    } else {
        0
    }
}

/// `x` after `n` more events, wrapping after the largest value.
pub open spec fn bumped_by(x: u64, n: nat) -> u64 {
    ((x + n) % 0x1_0000_0000_0000_0000) as u64
}

proof fn lemma_wrapping_step(x: u64, n: nat)
    ensures
        bumped_by(x, n) as int + 1 > u64::MAX ==> bumped_by(x, n) as int + 1 - 0x1_0000_0000_0000_0000
            == bumped_by(x, n + 1),
        bumped_by(x, n) as int + 1 <= u64::MAX ==> bumped_by(x, n) + 1 == bumped_by(x, n + 1),
{
    let m: int = 0x1_0000_0000_0000_0000;
    let y = (x + n) % m;
    assert((x + n + 1) % m == if y == m - 1 { 0 } else { y + 1 }) by (nonlinear_arith)
        requires
            m == 0x1_0000_0000_0000_0000,
            y == (x + n) % m,
            x + n >= 0,
    ;
}

/// The encoder without a media pipeline: it queues frames and produces
/// stand-in encoded frames of an eighth of the input.
pub struct VideoEncoder {
    config: EncoderConfig,
    is_encoding: bool,
    frame_queue: VecDeque<VideoFrame>,
    stats: EncoderCounters,
}

impl VideoEncoder {
    pub closed spec fn spec_config(&self) -> EncoderConfig {
        self.config
    }

    pub closed spec fn spec_encoding(&self) -> bool {
        self.is_encoding
    }

    pub closed spec fn spec_queue(&self) -> Seq<VideoFrame> {
        self.frame_queue@
    }

    pub closed spec fn spec_stats(&self) -> EncoderCounters {
        self.stats
    }

    /// An encoder for valid settings, not yet encoding.
    pub fn new(config: EncoderConfig) -> (r: Result<Self, StreamingError>)
        ensures
            validation_error(config) is Some <==> r is Err,
            validation_error(config) matches Some(v) ==> (r matches Err(
                StreamingError::ConfigurationError { field, reason },
            ) && field@ == v.0 && reason@ == v.1),
            r matches Ok(e) ==> e.spec_config() == config && !e.spec_encoding()
                && e.spec_queue().len() == 0 && e.spec_stats() == (EncoderCounters {
                frames_encoded: 0,
                keyframes_encoded: 0,
                total_bytes: 0,
                dropped_frames: 0,
                average_encoding_time_ns: 0,
            }),
    {
        match validate_config(&config) {
            Err(e) => Err(e),
            Ok(()) => Ok(
                VideoEncoder {
                    config,
                    is_encoding: false,
                    frame_queue: VecDeque::new(),
                    stats: EncoderCounters {
                        frames_encoded: 0,
                        keyframes_encoded: 0,
                        total_bytes: 0,
                        dropped_frames: 0,
                        average_encoding_time_ns: 0,
                    },
                },
            ),
        }
    }

    /// Starts encoding.
    pub fn initialize(&mut self)
        ensures
            final(self).spec_encoding(),
            final(self).spec_config() == old(self).spec_config(),
            final(self).spec_queue() == old(self).spec_queue(),
            final(self).spec_stats() == old(self).spec_stats(),
    {
        self.is_encoding = true;
    }

    /// Queues a frame and produces its encoded stand-in: a frame is a
    /// keyframe when its number is a multiple of the keyframe interval; the
    /// queue keeps the ten newest frames and counts the others as dropped.
    pub fn encode_frame(&mut self, frame: VideoFrame) -> (r: Result<EncodedFrame, StreamingError>)
        requires
            old(self).spec_config().gop_size > 0,
        ensures
            final(self).spec_config() == old(self).spec_config(),
            final(self).spec_encoding() == old(self).spec_encoding(),
            !old(self).spec_encoding() ==> {
                &&& r matches Err(StreamingError::VideoEncodingFailed(m))
                &&& m@ == "Encoder not initialized"@
                &&& final(self).spec_queue() == old(self).spec_queue()
                &&& final(self).spec_stats() == old(self).spec_stats()
            },
            old(self).spec_encoding() ==> {
                &&& r is Ok
                &&& final(self).spec_queue() == newest_frames(old(self).spec_queue().push(frame))
                &&& final(self).spec_stats().frames_encoded == bumped(
                    old(self).spec_stats().frames_encoded,
                )
                &&& final(self).spec_stats().dropped_frames == bumped_by(
                    old(self).spec_stats().dropped_frames,
                    overflow(old(self).spec_queue().push(frame)),
                )
                &&& final(self).spec_stats().keyframes_encoded == old(self).spec_stats().keyframes_encoded
                &&& final(self).spec_stats().total_bytes == old(self).spec_stats().total_bytes
            },
            r matches Ok(e) ==> {
                &&& e.timestamp == frame.timestamp
                &&& e.frame_number == frame.frame_number
                &&& e.is_keyframe == (frame.frame_number % (old(self).spec_config().gop_size as u64)
                    == 0)
                &&& e.size_bytes == frame.data@.len() / 8
                &&& e.data@.len() == if frame.data@.len() / 8 > 1024 {
                    frame.data@.len() / 8
                } else {
                    1024
                }
                &&& forall|i: int| 0 <= i < e.data@.len() ==> #[trigger] e.data@[i] == 0x42
            },
    {
        if !self.is_encoding {
            return Err(StreamingError::VideoEncodingFailed(String::from_str("Encoder not initialized")));
        }
        let start_time = clock_now();
        let frame_number = frame.frame_number;
        let timestamp = frame.timestamp;
        let len = frame.data.len();
        self.frame_queue.push_back(frame.clone());
        let ghost pushed = self.frame_queue@;
        let ghost mut popped: nat = 0;
        assert(pushed == old(self).frame_queue@.push(frame));
        while self.frame_queue.len() > MAX_QUEUED_FRAMES
            invariant
                pushed == old(self).frame_queue@.push(frame),
                popped <= overflow(pushed),
                self.frame_queue@ == pushed.skip(popped as int),
                self.stats.dropped_frames == bumped_by(old(self).stats.dropped_frames, popped),
                self.stats.frames_encoded == old(self).stats.frames_encoded,
                self.stats.keyframes_encoded == old(self).stats.keyframes_encoded,
                self.stats.total_bytes == old(self).stats.total_bytes,
                self.config == old(self).config,
                self.is_encoding == old(self).is_encoding,
            decreases self.frame_queue@.len(),
        {
            let ghost before = self.frame_queue@;
            let _dropped = self.frame_queue.pop_front();
            proof {
                lemma_wrapping_step(old(self).stats.dropped_frames, popped);
                assert(self.frame_queue@ =~= pushed.skip(popped + 1int));
            }
            self.stats.dropped_frames = self.stats.dropped_frames.wrapping_add(1);
            proof {
                popped = popped + 1;
            }
        }
        proof {
            assert(popped == overflow(pushed));
            if pushed.len() <= MAX_QUEUED_FRAMES {
                assert(pushed.skip(0) =~= pushed);
            }
        }
        self.stats.frames_encoded = self.stats.frames_encoded.wrapping_add(1);
        let compressed = len / 8;
        let fill = if compressed > 1024 {
            compressed
        } else {
            1024
        };
        let data = vec![0x42u8; fill];
        let encoding_time_ns = nanos_since(&start_time);
        let sum: u128 = self.stats.average_encoding_time_ns as u128 + encoding_time_ns as u128;
        self.stats.average_encoding_time_ns = (sum / 2) as u64;
        Ok(
            EncodedFrame {
                data,
                timestamp,
                frame_number,
                is_keyframe: frame_number % (self.config.gop_size as u64) == 0,
                encoding_time_ns,
                size_bytes: compressed,
            },
        )
    }

    /// Changes the bitrate.
    pub fn set_bitrate(&mut self, bitrate: u32)
        ensures
            final(self).spec_config() == (EncoderConfig { bitrate, ..old(self).spec_config() }),
            final(self).spec_encoding() == old(self).spec_encoding(),
            final(self).spec_queue() == old(self).spec_queue(),
            final(self).spec_stats() == old(self).spec_stats(),
    {
        self.config.bitrate = bitrate;
    }

    /// Stops encoding and clears the queue.
    pub fn shutdown(&mut self)
        ensures
            !final(self).spec_encoding(),
            final(self).spec_queue().len() == 0,
            final(self).spec_config() == old(self).spec_config(),
            final(self).spec_stats() == old(self).spec_stats(),
    {
        self.is_encoding = false;
        self.frame_queue.clear();
    }

    /// The counters.
    pub fn get_stats(&self) -> (s: EncoderCounters)
        ensures
            s == self.spec_stats(),
    {
        self.stats
    }
}

} // verus!
