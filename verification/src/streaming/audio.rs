//! Audio capture settings, the queue of captured samples and the audio
//! encoders.

use crate::error::DpstreamError;
use crate::streaming::moonlight::{AudioCodec, AudioFrame};
use std::collections::VecDeque;
use vstd::prelude::*;

verus! {

/// Settings of audio capture.
#[derive(Debug, Clone, Copy)]
pub struct AudioConfig {
    pub sample_rate: u32,
    pub channels: u8,
    pub bit_depth: u8,
    pub codec: AudioCodec,
    pub bitrate: u32,
    pub buffer_size: usize,
    pub enable_hardware_acceleration: bool,
    pub low_latency_mode: bool,
    pub noise_suppression: bool,
    pub echo_cancellation: bool,
}

impl Default for AudioConfig {
    /// 48 kHz 16-bit stereo Opus at 128 kbit/s in buffers of 1024 samples,
    /// hardware accelerated and low latency, without noise suppression or
    /// echo cancellation.
    fn default() -> (c: Self)
        ensures
            c.sample_rate == 48000,
            c.channels == 2,
            c.bit_depth == 16,
            c.codec == AudioCodec::Opus,
            c.bitrate == 128000,
            c.buffer_size == 1024,
            c.enable_hardware_acceleration,
            c.low_latency_mode,
            !c.noise_suppression,
            !c.echo_cancellation,
    {
        AudioConfig {
            sample_rate: 48000,
            channels: 2,
            bit_depth: 16,
            codec: AudioCodec::Opus,
            bitrate: 128000,
            buffer_size: 1024,
            enable_hardware_acceleration: true,
            low_latency_mode: true,
            noise_suppression: false,
            echo_cancellation: false,
        }
    }
}

/// Raw captured audio.
#[derive(Debug, Clone)]
pub struct AudioSample {
    pub data: Vec<u8>,
    pub timestamp: u64,
    pub sample_rate: u32,
    pub channels: u8,
    pub samples_per_channel: usize,
}

/// A captured buffer of 16-bit samples as a sample: the samples per
/// channel are the bytes over two per channel.
pub fn sample_from_buffer(data: Vec<u8>, timestamp: u64, config: &AudioConfig) -> (s: AudioSample)
    requires
        config.channels > 0,
    ensures
        s.data@ == data@,
        s.timestamp == timestamp,
        s.sample_rate == config.sample_rate,
        s.channels == config.channels,
        s.samples_per_channel == data@.len() as int / (config.channels * 2),
{
    let samples_per_channel = data.len() / (config.channels as usize * 2);
    AudioSample { data, timestamp, sample_rate: config.sample_rate, channels: config.channels, samples_per_channel }
}

/// Samples waiting for the encoder at most.
pub const MAX_QUEUED_SAMPLES: usize = 32;

/// Counters of the capture queue, each modulo 2^64.
#[derive(Debug, Clone, Copy, PartialEq, Eq)]
pub struct CaptureCounters {
    pub frames_captured: u64,
    pub frames_dropped: u64,
    pub bytes_processed: u64,
    pub buffer_underruns: u64,
}

/// `x + n` modulo 2^64.
pub open spec fn wrapped(x: u64, n: nat) -> u64 {
    ((x + n) % 0x1_0000_0000_0000_0000) as u64
}

fn add_wrapped(x: u64, n: u64) -> (r: u64)
    ensures
        r == wrapped(x, n as nat),
{
    let s: u128 = x as u128 + n as u128;
    (s % 0x1_0000_0000_0000_0000) as u64
}

/// Queues a captured sample. A full queue (32 samples) gives up its oldest
/// sample instead, and the new one is not queued: the drop and an underrun
/// are counted. Otherwise the sample is queued and counted with its bytes.
pub fn enqueue_sample(queue: &mut VecDeque<AudioSample>, counters: &mut CaptureCounters, sample: AudioSample)
    ensures
        old(queue)@.len() >= MAX_QUEUED_SAMPLES ==> {
            &&& final(queue)@ == old(queue)@.drop_first()
            &&& *final(counters) == CaptureCounters {
                frames_dropped: wrapped(old(counters).frames_dropped, 1),
                buffer_underruns: wrapped(old(counters).buffer_underruns, 1),
                ..*old(counters)
            }
        },
        old(queue)@.len() < MAX_QUEUED_SAMPLES ==> {
            &&& final(queue)@ == old(queue)@.push(sample)
            &&& *final(counters) == CaptureCounters {
                frames_captured: wrapped(old(counters).frames_captured, 1),
                bytes_processed: wrapped(old(counters).bytes_processed, sample.data@.len()),
                ..*old(counters)
            }
        },
{
    if queue.len() >= MAX_QUEUED_SAMPLES {
        let _oldest = queue.pop_front();
        counters.frames_dropped = add_wrapped(counters.frames_dropped, 1);
        counters.buffer_underruns = add_wrapped(counters.buffer_underruns, 1);
    } else {
        let bytes = sample.data.len() as u64;
        queue.push_back(sample);
        counters.frames_captured = add_wrapped(counters.frames_captured, 1);
        counters.bytes_processed = add_wrapped(counters.bytes_processed, bytes);
    }
}

/// The frame an encoder makes of `sample`: `data` in place of the samples,
/// with the sample's time, rate, channels and samples per channel.
pub open spec fn framed(sample: AudioSample, codec: AudioCodec, data: Seq<u8>, f: AudioFrame) -> bool {
    &&& f.data@ == data
    &&& f.timestamp == sample.timestamp
    &&& f.codec == codec
    &&& f.sample_rate == sample.sample_rate
    &&& f.channels == sample.channels as u16
    &&& f.samples == sample.samples_per_channel
}

/// The frame the encoder for `codec` makes of `sample`.
pub open spec fn encoded_as(sample: AudioSample, codec: AudioCodec, f: AudioFrame) -> bool {
    let n = sample.data@.len();
    match codec {
        AudioCodec::Opus => framed(sample, AudioCodec::Opus, Seq::new(n / 8, |i: int| 0u8), f),
        AudioCodec::AAC => framed(sample, AudioCodec::AAC, Seq::new(n / 6, |i: int| 0u8), f),
        AudioCodec::PCM => framed(sample, AudioCodec::PCM, sample.data@, f),
    }
}

/// The audio encoder. Without codec libraries it stands in for Opus and
/// AAC with zeroed frames of an eighth and a sixth of the input.
pub struct AudioEncoder {
    config: AudioConfig,
}

impl AudioEncoder {
    pub closed spec fn spec_codec(&self) -> AudioCodec {
        self.config.codec
    }

    /// An encoder for `config`.
    pub fn new(config: AudioConfig) -> (r: Result<Self, DpstreamError>)
        ensures
            r matches Ok(e) && e.spec_codec() == config.codec,
    {
        Ok(AudioEncoder { config })
    }

    /// Encodes with the configured codec.
    pub fn encode_sample(&mut self, sample: AudioSample) -> (r: Result<Option<AudioFrame>, DpstreamError>)
        ensures
            final(self).spec_codec() == old(self).spec_codec(),
            r matches Ok(Some(f)) && encoded_as(sample, old(self).spec_codec(), f),
    {
        match self.config.codec {
            AudioCodec::Opus => self.encode_opus(sample),
            AudioCodec::AAC => self.encode_aac(sample),
            AudioCodec::PCM => self.encode_pcm(sample),
        }
    }

    /// Stands in for Opus: a zeroed frame of an eighth of the input.
    pub fn encode_opus(&self, sample: AudioSample) -> (r: Result<Option<AudioFrame>, DpstreamError>)
        ensures
            r matches Ok(Some(f)) && framed(
                sample,
                AudioCodec::Opus,
                Seq::new(sample.data@.len() / 8, |i: int| 0u8),
                f,
            ),
    {
        let compressed_size = sample.data.len() / 8;
        let data = vec![0u8; compressed_size];
        assert(data@ =~= Seq::new(sample.data@.len() / 8, |i: int| 0u8));
        Ok(
            Some(
                AudioFrame {
                    data,
                    timestamp: sample.timestamp,
                    sample_rate: sample.sample_rate,
                    channels: sample.channels as u16,
                    codec: AudioCodec::Opus,
                    samples: sample.samples_per_channel,
                },
            ),
        )
    }

    /// Stands in for AAC: a zeroed frame of a sixth of the input.
    pub fn encode_aac(&self, sample: AudioSample) -> (r: Result<Option<AudioFrame>, DpstreamError>)
        ensures
            r matches Ok(Some(f)) && framed(
                sample,
                AudioCodec::AAC,
                Seq::new(sample.data@.len() / 6, |i: int| 0u8),
                f,
            ),
    {
        let compressed_size = sample.data.len() / 6;
        let data = vec![0u8; compressed_size];
        assert(data@ =~= Seq::new(sample.data@.len() / 6, |i: int| 0u8));
        Ok(
            Some(
                AudioFrame {
                    data,
                    timestamp: sample.timestamp,
                    sample_rate: sample.sample_rate,
                    channels: sample.channels as u16,
                    codec: AudioCodec::AAC,
                    samples: sample.samples_per_channel,
                },
            ),
        )
    }

    /// PCM is sent as it is.
    pub fn encode_pcm(&self, sample: AudioSample) -> (r: Result<Option<AudioFrame>, DpstreamError>)
        ensures
            r matches Ok(Some(f)) && framed(sample, AudioCodec::PCM, sample.data@, f),
    {
        Ok(
            Some(
                AudioFrame {
                    timestamp: sample.timestamp,
                    sample_rate: sample.sample_rate,
                    channels: sample.channels as u16,
                    codec: AudioCodec::PCM,
                    samples: sample.samples_per_channel,
                    data: sample.data,
                },
            ),
        )
    }
}

/// Counters of audio capture, each modulo 2^64.
#[derive(Debug, Clone, Copy, PartialEq, Eq)]
pub struct AudioStats {
    pub frames_captured: u64,
    pub frames_dropped: u64,
    pub bytes_processed: u64,
    pub buffer_underruns: u64,
    pub encoding_errors: u64,
}

/// What one round of the processing loop did: found no sample, encoded
/// one into a frame to send, got no frame yet, or failed to encode.
#[derive(Debug)]
pub enum ProcessStep {
    Idle,
    Encoded(AudioFrame),
    Pending,
    Failed,
}

/// Audio capture: the queue of captured samples, whether capture runs, its
/// counters, and the encoders of the capture and of the processing loop.
pub struct AudioCapture {
    config: AudioConfig,
    sample_queue: VecDeque<AudioSample>,
    is_capturing: bool,
    counters: CaptureCounters,
    encoding_errors: u64,
    encoder: Option<AudioEncoder>,
    processing_encoder: Option<AudioEncoder>,
}

impl AudioCapture {
    pub closed spec fn spec_config(&self) -> AudioConfig {
        self.config
    }

    /// The samples waiting for the encoder, oldest first.
    pub closed spec fn spec_queue(&self) -> Seq<AudioSample> {
        self.sample_queue@
    }

    pub closed spec fn spec_capturing(&self) -> bool {
        self.is_capturing
    }

    /// Whether the encoder of `initialize` is there.
    pub closed spec fn spec_initialized(&self) -> bool {
        self.encoder is Some
    }

    /// Whether the processing loop has its encoder, which it gets when
    /// capture first starts.
    pub closed spec fn spec_processing(&self) -> bool {
        self.processing_encoder is Some
    }

    pub closed spec fn spec_stats(&self) -> AudioStats {
        AudioStats {
            frames_captured: self.counters.frames_captured,
            frames_dropped: self.counters.frames_dropped,
            bytes_processed: self.counters.bytes_processed,
            buffer_underruns: self.counters.buffer_underruns,
            encoding_errors: self.encoding_errors,
        }
    }

    /// Both encoders, where they are, encode with the configured codec.
    pub closed spec fn wf(&self) -> bool {
        &&& (self.encoder matches Some(e) ==> e.spec_codec() == self.config.codec)
        &&& (self.processing_encoder matches Some(e) ==> e.spec_codec() == self.config.codec)
    }

    /// Capture for `config`: stopped, with an empty queue and zero
    /// counters.
    pub fn new(config: AudioConfig) -> (r: Result<Self, DpstreamError>)
        ensures
            r matches Ok(c) && {
                &&& c.wf()
                &&& c.spec_config() == config
                &&& c.spec_queue().len() == 0
                &&& !c.spec_capturing()
                &&& !c.spec_initialized()
                &&& !c.spec_processing()
                &&& c.spec_stats() == (AudioStats {
                    frames_captured: 0,
                    frames_dropped: 0,
                    bytes_processed: 0,
                    buffer_underruns: 0,
                    encoding_errors: 0,
                })
            },
    {
        Ok(
            AudioCapture {
                config,
                sample_queue: VecDeque::new(),
                is_capturing: false,
                counters: CaptureCounters {
                    frames_captured: 0,
                    frames_dropped: 0,
                    bytes_processed: 0,
                    buffer_underruns: 0,
                },
                encoding_errors: 0,
                encoder: None,
                processing_encoder: None,
            },
        )
    }

    /// Makes the capture's encoder.
    pub fn initialize(&mut self) -> (r: Result<(), DpstreamError>)
        requires
            old(self).wf(),
        ensures
            r is Ok,
            final(self).wf(),
            final(self).spec_initialized(),
            final(self).spec_config() == old(self).spec_config(),
            final(self).spec_queue() == old(self).spec_queue(),
            final(self).spec_capturing() == old(self).spec_capturing(),
            final(self).spec_processing() == old(self).spec_processing(),
            final(self).spec_stats() == old(self).spec_stats(),
    {
        let encoder = match AudioEncoder::new(self.config) {
            Ok(e) => e,
            Err(e) => {
                return Err(e);
            },
        };
        self.encoder = Some(encoder);
        Ok(())
    }

    /// Starts capture; the processing loop gets a fresh encoder. Starting
    /// capture that runs changes nothing.
    pub fn start_capture(&mut self) -> (r: Result<(), DpstreamError>)
        requires
            old(self).wf(),
        ensures
            r is Ok,
            final(self).wf(),
            final(self).spec_capturing(),
            old(self).spec_capturing() ==> final(self).spec_processing() == old(self).spec_processing(),
            !old(self).spec_capturing() ==> final(self).spec_processing(),
            final(self).spec_config() == old(self).spec_config(),
            final(self).spec_queue() == old(self).spec_queue(),
            final(self).spec_initialized() == old(self).spec_initialized(),
            final(self).spec_stats() == old(self).spec_stats(),
    {
        if self.is_capturing {
            return Ok(());
        }
        self.is_capturing = true;
        match AudioEncoder::new(self.config) {
            Ok(e) => {
                self.processing_encoder = Some(e);
            },
            Err(_) => {},
        }
        Ok(())
    }

    /// Stops capture; stopping capture that does not run changes nothing.
    pub fn stop_capture(&mut self) -> (r: Result<(), DpstreamError>)
        requires
            old(self).wf(),
        ensures
            r is Ok,
            final(self).wf(),
            !final(self).spec_capturing(),
            final(self).spec_processing() == old(self).spec_processing(),
            final(self).spec_config() == old(self).spec_config(),
            final(self).spec_queue() == old(self).spec_queue(),
            final(self).spec_initialized() == old(self).spec_initialized(),
            final(self).spec_stats() == old(self).spec_stats(),
    {
        self.is_capturing = false;
        Ok(())
    }

    /// Queues a captured buffer of 16-bit samples taken at
    /// `timestamp_us`, as `enqueue_sample` does.
    pub fn handle_audio_sample(&mut self, data: Vec<u8>, timestamp_us: u64)
        requires
            old(self).wf(),
            old(self).spec_config().channels > 0,
        ensures
            final(self).wf(),
            ({
                let sample = AudioSample {
                    data: data,
                    timestamp: timestamp_us,
                    sample_rate: old(self).spec_config().sample_rate,
                    channels: old(self).spec_config().channels,
                    samples_per_channel: (data@.len() as int / (old(self).spec_config().channels * 2)) as usize,
                };
                let before = old(self).spec_stats();
                let after = final(self).spec_stats();
                if old(self).spec_queue().len() >= MAX_QUEUED_SAMPLES {
                    &&& final(self).spec_queue() == old(self).spec_queue().drop_first()
                    &&& after == AudioStats {
                        frames_dropped: wrapped(before.frames_dropped, 1),
                        buffer_underruns: wrapped(before.buffer_underruns, 1),
                        ..before
                    }
                } else {
                    &&& final(self).spec_queue().len() == old(self).spec_queue().len() + 1
                    &&& final(self).spec_queue().drop_last() == old(self).spec_queue()
                    &&& final(self).spec_queue().last().data@ == sample.data@
                    &&& final(self).spec_queue().last().timestamp == sample.timestamp
                    &&& final(self).spec_queue().last().sample_rate == sample.sample_rate
                    &&& final(self).spec_queue().last().channels == sample.channels
                    &&& final(self).spec_queue().last().samples_per_channel == sample.samples_per_channel
                    &&& after == AudioStats {
                        frames_captured: wrapped(before.frames_captured, 1),
                        bytes_processed: wrapped(before.bytes_processed, data@.len()),
                        ..before
                    }
                }
            }),
            final(self).spec_config() == old(self).spec_config(),
            final(self).spec_capturing() == old(self).spec_capturing(),
            final(self).spec_initialized() == old(self).spec_initialized(),
            final(self).spec_processing() == old(self).spec_processing(),
    {
        let sample = sample_from_buffer(data, timestamp_us, &self.config);
        enqueue_sample(&mut self.sample_queue, &mut self.counters, sample);
        proof {
            if old(self).sample_queue@.len() < MAX_QUEUED_SAMPLES {
                assert(self.sample_queue@.drop_last() =~= old(self).sample_queue@);
            }
        }
    }

    /// One round of the processing loop: takes the oldest queued sample
    /// and encodes it. Without a sample, or before capture first started,
    /// there is nothing to do.
    pub fn process_next_sample(&mut self) -> (step: ProcessStep)
        requires
            old(self).wf(),
        ensures
            final(self).wf(),
            (!old(self).spec_processing() || old(self).spec_queue().len() == 0) ==> step is Idle
                && final(self).spec_queue() == old(self).spec_queue() && final(self).spec_stats()
                == old(self).spec_stats(),
            old(self).spec_processing() && old(self).spec_queue().len() > 0 ==> {
                &&& final(self).spec_queue() == old(self).spec_queue().drop_first()
                &&& final(self).spec_stats() == old(self).spec_stats()
                &&& step matches ProcessStep::Encoded(f) && encoded_as(
                    old(self).spec_queue()[0],
                    old(self).spec_config().codec,
                    f,
                )
            },
            final(self).spec_config() == old(self).spec_config(),
            final(self).spec_capturing() == old(self).spec_capturing(),
            final(self).spec_initialized() == old(self).spec_initialized(),
            final(self).spec_processing() == old(self).spec_processing(),
    {
        let mut encoder = match self.processing_encoder.take() {
            None => {
                return ProcessStep::Idle;
            },
            Some(e) => e,
        };
        let step = match self.sample_queue.pop_front() {
            None => ProcessStep::Idle,
            Some(sample) => match encoder.encode_sample(sample) {
                Ok(Some(frame)) => ProcessStep::Encoded(frame),
                Ok(None) => ProcessStep::Pending,
                Err(_) => {
                    self.encoding_errors = self.encoding_errors.wrapping_add(1);
                    ProcessStep::Failed
                },
            },
        };
        self.processing_encoder = Some(encoder);
        step
    }

    /// The counters of capture.
    pub fn get_stats(&self) -> (s: AudioStats)
        ensures
            s == self.spec_stats(),
    {
        AudioStats {
            frames_captured: self.counters.frames_captured,
            frames_dropped: self.counters.frames_dropped,
            bytes_processed: self.counters.bytes_processed,
            buffer_underruns: self.counters.buffer_underruns,
            encoding_errors: self.encoding_errors,
        }
    }
}

} // verus!
