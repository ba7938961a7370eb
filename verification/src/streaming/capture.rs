//! Captured video frames and the pool of frame buffers that capture reuses.

use crate::error::StreamingError;
use std::collections::VecDeque;
use std::sync::Arc;
use vstd::prelude::*;
use vstd::string::*;

verus! {

/// Priority of a frame for adaptive quality control.
#[derive(Debug, Clone, Copy, PartialEq, Eq, PartialOrd, Ord)]
pub enum FramePriority {
    Low,
    Normal,
    High,
    /// Keyframes.
    Critical,
}

/// A captured frame; its pixels are shared, not copied.
#[derive(Debug)]
pub struct VideoFrame {
    pub data: Arc<Vec<u8>>,
    pub width: u32,
    pub height: u32,
    pub timestamp: u64,
    pub frame_number: u64,
    pub priority: FramePriority,
}

/// `Arc::clone`: another pointer to the same pixels.
#[verifier::external_body]
fn share_pixels(a: &Arc<Vec<u8>>) -> (r: Arc<Vec<u8>>)
    ensures
        r == *a,
{
    Arc::clone(a)
}

impl Clone for VideoFrame {
    /// The same frame, sharing its pixels.
    fn clone(&self) -> (c: Self)
        ensures
            c == *self,
    {
        VideoFrame {
            data: share_pixels(&self.data),
            width: self.width,
            height: self.height,
            timestamp: self.timestamp,
            frame_number: self.frame_number,
            priority: self.priority,
        }
    }
}

/// Encoder choice of the capture pipeline.
#[derive(Debug, Clone, Copy, PartialEq, Eq)]
pub enum VideoEncoder {
    Software,
    NVENC,
    VAAPI,
}

/// Speed against quality of the capture encoder.
#[derive(Debug, Clone, Copy, PartialEq, Eq)]
pub enum QualityPreset {
    UltraFast,
    SuperFast,
    VeryFast,
    Faster,
    Fast,
    Medium,
    Slow,
    Slower,
    VerySlow,
}

/// Settings of a capture.
#[derive(Debug, Clone, Copy, PartialEq, Eq)]
pub struct VideoCaptureConfig {
    pub window_id: u64,
    pub width: u32,
    pub height: u32,
    pub fps: u32,
    pub bitrate: u32,
    pub encoder: VideoEncoder,
    pub quality_preset: QualityPreset,
}

/// The NVENC preset of a quality preset.
pub open spec fn nvenc_preset_of(p: QualityPreset) -> Seq<char> {
    match p {
        QualityPreset::UltraFast => "hp"@,
        QualityPreset::Slow => "lossless-hp"@,
        QualityPreset::Slower | QualityPreset::VerySlow => "lossless-hq"@,
        _ => "hq"@,
    }
}

/// The NVENC preset of a quality preset.
pub fn quality_preset_to_nvenc(p: QualityPreset) -> (s: &'static str)
    ensures
        s@ == nvenc_preset_of(p),
{
    match p {
        QualityPreset::UltraFast => "hp",
        QualityPreset::SuperFast => "hq",
        QualityPreset::VeryFast => "hq",
        QualityPreset::Faster => "hq",
        QualityPreset::Fast => "hq",
        QualityPreset::Medium => "hq",
        QualityPreset::Slow => "lossless-hp",
        QualityPreset::Slower => "lossless-hq",
        QualityPreset::VerySlow => "lossless-hq",
    }
}

/// The x264 speed preset, 1 (fastest) to 9 (slowest).
pub open spec fn x264_preset_of(p: QualityPreset) -> u32 {
    match p {
        QualityPreset::UltraFast => 1,
        QualityPreset::SuperFast => 2,
        QualityPreset::VeryFast => 3,
        QualityPreset::Faster => 4,
        QualityPreset::Fast => 5,
        QualityPreset::Medium => 6,
        QualityPreset::Slow => 7,
        QualityPreset::Slower => 8,
        QualityPreset::VerySlow => 9,
    }
}

/// The x264 speed preset, 1 (fastest) to 9 (slowest).
pub fn quality_preset_to_x264(p: QualityPreset) -> (n: u32)
    ensures
        n == x264_preset_of(p),
{
    match p {
        QualityPreset::UltraFast => 1,
        QualityPreset::SuperFast => 2,
        QualityPreset::VeryFast => 3,
        QualityPreset::Faster => 4,
        QualityPreset::Fast => 5,
        QualityPreset::Medium => 6,
        QualityPreset::Slow => 7,
        QualityPreset::Slower => 8,
        QualityPreset::VerySlow => 9,
    }
}

/// Buffers for two seconds of frames, at least 8 and at most 32.
pub open spec fn pool_size_for(fps: u32) -> usize {
    let two_seconds = fps * 2;
    if two_seconds < 8 {
        8
    } else if two_seconds > 32 {
        32
    } else {
        two_seconds as usize
    }
}

/// The pool sizes of a capture: the bytes of an RGBA frame and the number of
/// buffers.
pub fn capture_pool_sizes(config: &VideoCaptureConfig) -> (r: (usize, usize))
    requires
        config.width * config.height * 4 <= u32::MAX,
    ensures
        r.0 == config.width * config.height * 4,
        r.1 == pool_size_for(config.fps),
{
    let frame_size = (config.width * config.height * 4) as usize;
    let two_seconds = config.fps as u64 * 2;
    let max_buffers: usize = if two_seconds < 8 {
        8
    } else if two_seconds > 32 {
        32
    } else {
        two_seconds as usize
    };
    (frame_size, max_buffers)
}

/// `Arc::strong_count`: how many pointers share the buffer. It depends on
/// pointers held elsewhere: nothing is claimed of it.
#[verifier::external_body]
fn pointer_count(buffer: &Arc<Vec<u8>>) -> (n: usize) {
    Arc::strong_count(buffer)
}

/// A pool of frame buffers of one size: half of the buffers are kept for
/// reuse, and at most `max_buffers` exist at once.
pub struct VideoFramePool {
    buffers: VecDeque<Arc<Vec<u8>>>,
    buffer_size: usize,
    max_buffers: usize,
    allocated_count: usize,
}

impl VideoFramePool {
    /// Buffers kept for reuse.
    pub closed spec fn available(&self) -> Seq<Arc<Vec<u8>>> {
        self.buffers@
    }

    /// Buffers counted as existing.
    pub closed spec fn allocated(&self) -> nat {
        self.allocated_count as nat
    }

    pub closed spec fn spec_buffer_size(&self) -> nat {
        self.buffer_size as nat
    }

    pub closed spec fn spec_max_buffers(&self) -> nat {
        self.max_buffers as nat
    }

    /// Kept buffers have the pool's size and number at most half the limit.
    pub closed spec fn wf(&self) -> bool {
        &&& self.buffers@.len() <= self.max_buffers / 2
        &&& forall|i: int| 0 <= i < self.buffers@.len() ==> (#[trigger] self.buffers@[i])@.len() == self.buffer_size
    }

    /// A pool with half of `max_buffers` zeroed buffers ready.
    pub fn new(buffer_size: usize, max_buffers: usize) -> (p: Self)
        ensures
            p.wf(),
            p.available().len() == max_buffers / 2,
            p.allocated() == max_buffers / 2,
            p.spec_buffer_size() == buffer_size,
            p.spec_max_buffers() == max_buffers,
    {
        let mut buffers: VecDeque<Arc<Vec<u8>>> = VecDeque::new();
        let half = max_buffers / 2;
        let mut i: usize = 0;
        while i < half
            invariant
                i <= half,
                half == max_buffers / 2,
                buffers@.len() == i,
                forall|k: int| 0 <= k < buffers@.len() ==> (#[trigger] buffers@[k])@.len() == buffer_size,
            decreases half - i,
        {
            buffers.push_back(Arc::new(vec![0u8; buffer_size]));
            i = i + 1;
        }
        VideoFramePool { buffers, buffer_size, max_buffers, allocated_count: half }
    }

    /// A buffer: a kept one if there is one, else a new zeroed one while
    /// fewer than the limit exist, else `NoBuffersAvailable`.
    pub fn acquire(&mut self) -> (r: Result<Arc<Vec<u8>>, StreamingError>)
        requires
            old(self).wf(),
        ensures
            final(self).wf(),
            final(self).spec_buffer_size() == old(self).spec_buffer_size(),
            final(self).spec_max_buffers() == old(self).spec_max_buffers(),
            old(self).available().len() > 0 ==> r == Ok::<Arc<Vec<u8>>, StreamingError>(
                old(self).available()[0],
            ) && final(self).available() == old(self).available().drop_first()
                && final(self).allocated() == old(self).allocated(),
            old(self).available().len() == 0 && old(self).allocated() < old(self).spec_max_buffers()
                ==> (r matches Ok(b) && b@.len() == old(self).spec_buffer_size()
                && final(self).allocated() == old(self).allocated() + 1
                && final(self).available() == old(self).available()),
            old(self).available().len() == 0 && old(self).allocated() >= old(self).spec_max_buffers()
                ==> r == Err::<Arc<Vec<u8>>, StreamingError>(StreamingError::NoBuffersAvailable)
                && final(self).allocated() == old(self).allocated()
                && final(self).available() == old(self).available(),
    {
        if let Some(buffer) = self.buffers.pop_front() {
            return Ok(buffer);
        }
        if self.allocated_count < self.max_buffers {
            self.allocated_count = self.allocated_count + 1;
            return Ok(Arc::new(vec![0u8; self.buffer_size]));
        }
        Err(StreamingError::NoBuffersAvailable)
    }

    /// Takes a buffer back. A buffer of the pool's size that nobody else
    /// holds is kept while fewer than half the limit are kept; any other
    /// buffer is dropped and no longer counted.
    pub fn release(&mut self, buffer: Arc<Vec<u8>>)
        requires
            old(self).wf(),
        ensures
            final(self).wf(),
            final(self).spec_buffer_size() == old(self).spec_buffer_size(),
            final(self).spec_max_buffers() == old(self).spec_max_buffers(),
            final(self).available() == old(self).available().push(buffer)
                && final(self).allocated() == old(self).allocated() || final(self).available()
                == old(self).available() && final(self).allocated() == (if old(self).allocated() > 0 {
                old(self).allocated() - 1
            } else {
                0
            }),
            buffer@.len() != old(self).spec_buffer_size() || old(self).available().len()
                >= old(self).spec_max_buffers() / 2 ==> final(self).available()
                == old(self).available(),
    {
        if buffer.len() == self.buffer_size && pointer_count(&buffer) == 1 {
            if self.buffers.len() < self.max_buffers / 2 {
                self.buffers.push_back(buffer);
                return;
            }
        }
        if self.allocated_count > 0 {
            self.allocated_count = self.allocated_count - 1;
        }
    }

    /// Kept buffers and buffers in existence.
    pub fn stats(&self) -> (r: (usize, usize))
        ensures
            r.0 == self.available().len(),
            r.1 == self.allocated(),
    {
        (self.buffers.len(), self.allocated_count)
    }
}

/// What capture has done: the frames made, whether it runs, and its
/// settings.
#[derive(Debug, Clone, Copy, PartialEq, Eq)]
pub struct CaptureStats {
    pub frames_captured: u64,
    pub is_active: bool,
    pub config: VideoCaptureConfig,
}

/// Video capture of the emulator's window. Without a capture pipeline it
/// makes gray frames: the loop that sends them runs outside, and takes each
/// frame from `generate_frame_at`.
pub struct VideoCapture {
    config: VideoCaptureConfig,
    is_capturing: bool,
    frame_counter: u64,
    buffer_pool: VideoFramePool,
    generator_started: bool,
}

impl VideoCapture {
    pub closed spec fn spec_config(&self) -> VideoCaptureConfig {
        self.config
    }

    pub closed spec fn spec_capturing(&self) -> bool {
        self.is_capturing
    }

    /// The frames made so far.
    pub closed spec fn spec_frames(&self) -> u64 {
        self.frame_counter
    }

    /// Whether the frame loop has been started; it is started once.
    pub closed spec fn spec_started(&self) -> bool {
        self.generator_started
    }

    pub closed spec fn spec_pool(&self) -> VideoFramePool {
        self.buffer_pool
    }

    /// An RGBA frame of the configured size fits in 32 bits.
    pub closed spec fn wf(&self) -> bool {
        self.config.width * self.config.height * 4 <= u32::MAX
    }

    /// A stopped capture for `config` with no frames made, and a pool of
    /// RGBA buffers for two seconds of frames (8 to 32 buffers).
    pub fn new(config: VideoCaptureConfig) -> (r: Result<Self, StreamingError>)
        requires
            config.width * config.height * 4 <= u32::MAX,
        ensures
            r matches Ok(c) && {
                &&& c.wf()
                &&& c.spec_config() == config
                &&& !c.spec_capturing()
                &&& !c.spec_started()
                &&& c.spec_frames() == 0
                &&& c.spec_pool().wf()
                &&& c.spec_pool().spec_buffer_size() == config.width * config.height * 4
                &&& c.spec_pool().spec_max_buffers() == pool_size_for(config.fps)
            },
    {
        let (frame_size, max_buffers) = capture_pool_sizes(&config);
        let buffer_pool = VideoFramePool::new(frame_size, max_buffers);
        Ok(VideoCapture { config, is_capturing: false, frame_counter: 0, buffer_pool, generator_started: false })
    }

    /// Starts capture and hands the frame loop its start; the loop is
    /// started once only.
    pub fn start_capture(&mut self) -> (r: Result<(), StreamingError>)
        requires
            !old(self).spec_started(),
        ensures
            r is Ok,
            final(self).spec_capturing(),
            final(self).spec_started(),
            final(self).spec_config() == old(self).spec_config(),
            final(self).spec_frames() == old(self).spec_frames(),
            final(self).spec_pool() == old(self).spec_pool(),
            final(self).wf() == old(self).wf(),
    {
        self.generator_started = true;
        self.is_capturing = true;
        Ok(())
    }

    /// Stops capture; the frame loop ends at its next round.
    pub fn stop_capture(&mut self) -> (r: Result<(), StreamingError>)
        ensures
            r is Ok,
            !final(self).spec_capturing(),
            final(self).spec_started() == old(self).spec_started(),
            final(self).spec_config() == old(self).spec_config(),
            final(self).spec_frames() == old(self).spec_frames(),
            final(self).spec_pool() == old(self).spec_pool(),
            final(self).wf() == old(self).wf(),
    {
        self.is_capturing = false;
        Ok(())
    }

    /// Whether capture runs.
    pub fn is_capturing(&self) -> (b: bool)
        ensures
            b == self.spec_capturing(),
    {
        self.is_capturing
    }

    /// The frames made, whether capture runs, and the settings.
    pub fn get_stats(&self) -> (s: CaptureStats)
        ensures
            s == (CaptureStats {
                frames_captured: self.spec_frames(),
                is_active: self.spec_capturing(),
                config: self.spec_config(),
            }),
    {
        CaptureStats { frames_captured: self.frame_counter, is_active: self.is_capturing, config: self.config }
    }

    /// Milliseconds between two frames of the loop.
    pub fn frame_interval_ms(&self) -> (ms: u64)
        requires
            self.spec_config().fps > 0,
        ensures
            ms == 1000u64 / (self.spec_config().fps as u64),
    {
        1000 / (self.config.fps as u64)
    }

    /// One round of the frame loop at `timestamp_ns`: while capture runs,
    /// the next frame, gray (every byte 128) and of the size of an I420
    /// frame, numbered after the last; once capture stops, none, and the
    /// loop ends.
    pub fn generate_frame_at(&mut self, timestamp_ns: u64) -> (f: Option<VideoFrame>)
        requires
            old(self).wf(),
            old(self).spec_frames() < u64::MAX,
        ensures
            final(self).wf(),
            final(self).spec_config() == old(self).spec_config(),
            final(self).spec_capturing() == old(self).spec_capturing(),
            final(self).spec_started() == old(self).spec_started(),
            final(self).spec_pool() == old(self).spec_pool(),
            !old(self).spec_capturing() ==> f is None && final(self).spec_frames() == old(self).spec_frames(),
            old(self).spec_capturing() ==> final(self).spec_frames() == old(self).spec_frames() + 1 && (
            f matches Some(frame) && {
                &&& frame.frame_number == final(self).spec_frames()
                &&& frame.width == old(self).spec_config().width
                &&& frame.height == old(self).spec_config().height
                &&& frame.timestamp == timestamp_ns
                &&& frame.priority == FramePriority::Normal
                &&& frame.data@.len() == old(self).spec_config().width * old(self).spec_config().height
                    * 3 / 2
                &&& forall|i: int| 0 <= i < frame.data@.len() ==> #[trigger] frame.data@[i] == 128u8
            }),
    {
        if !self.is_capturing {
            return None;
        }
        self.frame_counter = self.frame_counter + 1;
        let frame_size = (self.config.width * self.config.height * 3 / 2) as usize;
        let data = Arc::new(vec![128u8; frame_size]);
        Some(
            VideoFrame {
                data,
                width: self.config.width,
                height: self.config.height,
                timestamp: timestamp_ns,
                frame_number: self.frame_counter,
                priority: FramePriority::Normal,
            },
        )
    }
}

} // verus!
