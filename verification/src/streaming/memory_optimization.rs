//! Pools of pre-sized slots for video frames, audio buffers and network
//! packets, handed out and returned without reallocating.

use crate::clock::unix_now_nanos;
use vstd::prelude::*;

verus! {

/// The largest frame a slot holds: 4K RGBA.
pub const MAX_FRAME_BYTES: usize = 33177600;

/// The most samples an audio slot holds: one second of 48 kHz stereo.
pub const MAX_AUDIO_SAMPLES: usize = 96000;

/// The largest packet a slot holds: a jumbo frame.
pub const MAX_PACKET_BYTES: usize = 9000;

/// Frame slots in the pool.
pub const FRAME_SLOTS: usize = 16;

/// Audio slots in the pool.
pub const AUDIO_SLOTS: usize = 32;

/// Packet slots in the pool.
pub const PACKET_SLOTS: usize = 128;

/// Why an allocation failed.
#[derive(Debug, Clone, PartialEq, Eq)]
pub enum AllocationError {
    SizeTooLarge(usize),
    PoolExhausted,
    InvalidParameters,
    AllocationFailed(String),
}

/// A slot of the frame pool.
pub struct VideoFrameSlot {
    data: Vec<u8>,
    size: usize,
    width: u32,
    height: u32,
    timestamp: u64,
    frame_number: u64,
    in_use: bool,
}

/// A slot of the audio pool: its bookkeeping; the samples live with the
/// caller.
pub struct AudioBufferSlot {
    sample_count: usize,
    sample_rate: u32,
    channels: u16,
    timestamp: u64,
    in_use: bool,
}

/// A slot of the packet pool.
pub struct PacketSlot {
    data: Vec<u8>,
    size: usize,
    packet_type: u16,
    timestamp: u64,
    sequence: u32,
    in_use: bool,
}

/// Allocation counters, each modulo 2^64.
#[derive(Debug, Clone, Copy, PartialEq, Eq)]
pub struct MemoryStats {
    pub total_allocations: u64,
    pub total_deallocations: u64,
    pub bytes_allocated: u64,
    pub bytes_deallocated: u64,
    pub pool_hits: u64,
    pub pool_misses: u64,
    pub arena_allocations: u64,
    pub peak_memory_usage: u64,
    pub current_memory_usage: u64,
    pub fragmentation_score: u64,
}

/// A claim on a frame slot.
#[derive(Debug)]
pub struct VideoFrameHandle {
    slot_key: usize,
}

/// A claim on an audio slot.
#[derive(Debug)]
pub struct AudioBufferHandle {
    slot_key: usize,
}

/// A claim on a packet slot.
#[derive(Debug)]
pub struct PacketHandle {
    slot_key: usize,
}

impl VideoFrameHandle {
    pub closed spec fn key(&self) -> nat {
        self.slot_key as nat
    }
}

impl AudioBufferHandle {
    pub closed spec fn key(&self) -> nat {
        self.slot_key as nat
    }
}

impl PacketHandle {
    pub closed spec fn key(&self) -> nat {
        self.slot_key as nat
    }
}

/// `x + n` modulo 2^64.
pub open spec fn wrapped_add(x: u64, n: int) -> u64 {
    ((x + n) % 0x1_0000_0000_0000_0000) as u64
}

/// `x + n` modulo 2^64.
fn add_wrapping(x: u64, n: u64) -> (r: u64)
    ensures
        r == wrapped_add(x, n as int),
{
    let s: u128 = x as u128 + n as u128;
    (s % 0x1_0000_0000_0000_0000) as u64
}

/// Whether slot `k` is the first free one.
pub open spec fn first_free(in_use: Seq<bool>, k: int) -> bool {
    &&& 0 <= k < in_use.len()
    &&& !in_use[k]
    &&& forall|j: int| 0 <= j < k ==> #[trigger] in_use[j]
}

/// Whether every slot is taken.
pub open spec fn all_taken(in_use: Seq<bool>) -> bool {
    forall|j: int| 0 <= j < in_use.len() ==> #[trigger] in_use[j]
}

/// The counters after a pool hit of `bytes`.
pub open spec fn after_hit(s: MemoryStats, bytes: int) -> MemoryStats {
    MemoryStats {
        pool_hits: wrapped_add(s.pool_hits, 1),
        total_allocations: wrapped_add(s.total_allocations, 1),
        bytes_allocated: wrapped_add(s.bytes_allocated, bytes),
        ..s
    }
}

/// The counters after a pool miss.
pub open spec fn after_miss(s: MemoryStats) -> MemoryStats {
    MemoryStats { pool_misses: wrapped_add(s.pool_misses, 1), ..s }
}

/// The counters after a release of `bytes`.
pub open spec fn after_release(s: MemoryStats, bytes: int) -> MemoryStats {
    MemoryStats {
        total_deallocations: wrapped_add(s.total_deallocations, 1),
        bytes_deallocated: wrapped_add(s.bytes_deallocated, bytes),
        ..s
    }
}

/// Pools of frame, audio and packet slots.
pub struct StreamingAllocator {
    frame_pool: Vec<VideoFrameSlot>,
    audio_pool: Vec<AudioBufferSlot>,
    packet_pool: Vec<PacketSlot>,
    stats: MemoryStats,
}

impl StreamingAllocator {
    /// Which frame slots are taken.
    pub closed spec fn frames_in_use(&self) -> Seq<bool> {
        self.frame_pool@.map_values(|s: VideoFrameSlot| s.in_use)
    }

    /// Which audio slots are taken.
    pub closed spec fn audio_in_use(&self) -> Seq<bool> {
        self.audio_pool@.map_values(|s: AudioBufferSlot| s.in_use)
    }

    /// Which packet slots are taken.
    pub closed spec fn packets_in_use(&self) -> Seq<bool> {
        self.packet_pool@.map_values(|s: PacketSlot| s.in_use)
    }

    /// Width, height, byte size and timestamp of frame slot `k`.
    pub closed spec fn frame_meta(&self, k: int) -> (u32, u32, usize, u64) {
        let s = self.frame_pool@[k];
        (s.width, s.height, s.size, s.timestamp)
    }

    /// Sample count, rate, channels and timestamp of audio slot `k`.
    pub closed spec fn audio_meta(&self, k: int) -> (usize, u32, u16, u64) {
        let s = self.audio_pool@[k];
        (s.sample_count, s.sample_rate, s.channels, s.timestamp)
    }

    /// Byte size, type, timestamp and sequence number of packet slot `k`.
    pub closed spec fn packet_meta(&self, k: int) -> (usize, u16, u64, u32) {
        let s = self.packet_pool@[k];
        (s.size, s.packet_type, s.timestamp, s.sequence)
    }

    /// The counters.
    pub closed spec fn spec_stats(&self) -> MemoryStats {
        self.stats
    }

    /// Every slot's buffer holds at least the slot's size.
    pub closed spec fn wf(&self) -> bool {
        &&& forall|k: int|
            0 <= k < self.frame_pool@.len() ==> #[trigger] self.frame_pool@[k].data@.len()
                >= self.frame_pool@[k].size
        &&& forall|k: int|
            0 <= k < self.packet_pool@.len() ==> #[trigger] self.packet_pool@[k].data@.len()
                >= self.packet_pool@[k].size
    }

    /// Pools of 16 frame slots, 32 audio slots (48 kHz stereo) and 128
    /// packet slots, all free, with zeroed counters.
    pub fn new() -> (a: Self)
        ensures
            a.wf(),
            a.frames_in_use() == Seq::new(FRAME_SLOTS as nat, |i: int| false),
            a.audio_in_use() == Seq::new(AUDIO_SLOTS as nat, |i: int| false),
            a.packets_in_use() == Seq::new(PACKET_SLOTS as nat, |i: int| false),
            forall|k: int| 0 <= k < AUDIO_SLOTS ==> #[trigger] a.audio_meta(k) == (0usize, 48000u32, 2u16, 0u64),
            a.spec_stats() == (MemoryStats {
                total_allocations: 0,
                total_deallocations: 0,
                bytes_allocated: 0,
                bytes_deallocated: 0,
                pool_hits: 0,
                pool_misses: 0,
                arena_allocations: 0,
                peak_memory_usage: 0,
                current_memory_usage: 0,
                fragmentation_score: 0,
            }),
    {
        let mut frame_pool: Vec<VideoFrameSlot> = Vec::with_capacity(FRAME_SLOTS);
        while frame_pool.len() < FRAME_SLOTS
            invariant
                frame_pool.len() <= FRAME_SLOTS,
                forall|k: int|
                    0 <= k < frame_pool@.len() ==> !(#[trigger] frame_pool@[k]).in_use
                        && frame_pool@[k].size == 0,
            decreases FRAME_SLOTS - frame_pool.len(),
        {
            frame_pool.push(
                VideoFrameSlot {
                    data: Vec::new(),
                    size: 0,
                    width: 0,
                    height: 0,
                    timestamp: 0,
                    frame_number: 0,
                    in_use: false,
                },
            );
        }
        let mut audio_pool: Vec<AudioBufferSlot> = Vec::with_capacity(AUDIO_SLOTS);
        while audio_pool.len() < AUDIO_SLOTS
            invariant
                audio_pool.len() <= AUDIO_SLOTS,
                forall|k: int|
                    0 <= k < audio_pool@.len() ==> !(#[trigger] audio_pool@[k]).in_use
                        && audio_pool@[k].sample_count == 0 && audio_pool@[k].sample_rate == 48000
                        && audio_pool@[k].channels == 2 && audio_pool@[k].timestamp == 0,
            decreases AUDIO_SLOTS - audio_pool.len(),
        {
            audio_pool.push(
                AudioBufferSlot {
                    sample_count: 0,
                    sample_rate: 48000,
                    channels: 2,
                    timestamp: 0,
                    in_use: false,
                },
            );
        }
        let mut packet_pool: Vec<PacketSlot> = Vec::with_capacity(PACKET_SLOTS);
        while packet_pool.len() < PACKET_SLOTS
            invariant
                packet_pool.len() <= PACKET_SLOTS,
                forall|k: int|
                    0 <= k < packet_pool@.len() ==> !(#[trigger] packet_pool@[k]).in_use
                        && packet_pool@[k].size == 0,
            decreases PACKET_SLOTS - packet_pool.len(),
        {
            packet_pool.push(
                PacketSlot {
                    data: Vec::new(),
                    size: 0,
                    packet_type: 0,
                    timestamp: 0,
                    sequence: 0,
                    in_use: false,
                },
            );
        }
        let a = StreamingAllocator {
            frame_pool,
            audio_pool,
            packet_pool,
            stats: MemoryStats {
                total_allocations: 0,
                total_deallocations: 0,
                bytes_allocated: 0,
                bytes_deallocated: 0,
                pool_hits: 0,
                pool_misses: 0,
                arena_allocations: 0,
                peak_memory_usage: 0,
                current_memory_usage: 0,
                fragmentation_score: 0,
            },
        };
        assert(a.frames_in_use() =~= Seq::new(FRAME_SLOTS as nat, |i: int| false));
        assert(a.audio_in_use() =~= Seq::new(AUDIO_SLOTS as nat, |i: int| false));
        assert(a.packets_in_use() =~= Seq::new(PACKET_SLOTS as nat, |i: int| false));
        a
    }

    /// Claims the first free frame slot for a `width` by `height` RGBA frame
    /// stamped with the current time; the slot's buffer then holds exactly
    /// the frame's bytes. Frames over 4K RGBA are refused, and a full pool
    /// counts a miss.
    pub fn allocate_video_frame(&mut self, width: u32, height: u32) -> (r: Result<VideoFrameHandle, AllocationError>)
        requires
            old(self).wf(),
            width * height * 4 <= u32::MAX,
        ensures
            final(self).wf(),
            final(self).audio_in_use() == old(self).audio_in_use(),
            final(self).packets_in_use() == old(self).packets_in_use(),
            width * height * 4 > MAX_FRAME_BYTES ==> r == Err::<VideoFrameHandle, AllocationError>(
                AllocationError::SizeTooLarge((width * height * 4) as usize),
            ) && final(self).frames_in_use() == old(self).frames_in_use()
                && final(self).spec_stats() == old(self).spec_stats(),
            width * height * 4 <= MAX_FRAME_BYTES && all_taken(old(self).frames_in_use()) ==> r
                == Err::<VideoFrameHandle, AllocationError>(AllocationError::PoolExhausted)
                && final(self).frames_in_use() == old(self).frames_in_use()
                && final(self).spec_stats() == after_miss(old(self).spec_stats()),
            width * height * 4 <= MAX_FRAME_BYTES && !all_taken(old(self).frames_in_use()) ==> (
            r matches Ok(h) && {
                &&& first_free(old(self).frames_in_use(), h.key() as int)
                &&& final(self).frames_in_use() == old(self).frames_in_use().update(
                    h.key() as int,
                    true,
                )
                &&& final(self).frame_meta(h.key() as int).0 == width
                &&& final(self).frame_meta(h.key() as int).1 == height
                &&& final(self).frame_meta(h.key() as int).2 == width * height * 4
                &&& final(self).spec_stats() == after_hit(
                    old(self).spec_stats(),
                    width * height * 4,
                )
            }),
    {
        let required_size = (width * height * 4) as usize;
        if required_size > MAX_FRAME_BYTES {
            return Err(AllocationError::SizeTooLarge(required_size));
        }
        let ghost flags = self.frames_in_use();
        let mut key: usize = 0;
        while key < self.frame_pool.len()
            invariant
                key <= self.frame_pool@.len(),
                flags == self.frames_in_use(),
                flags == old(self).frames_in_use(),
                forall|j: int| 0 <= j < key ==> #[trigger] flags[j],
                self.frame_pool == old(self).frame_pool,
                self.audio_pool == old(self).audio_pool,
                self.packet_pool == old(self).packet_pool,
                self.stats == old(self).stats,
                self.wf(),
                required_size == width * height * 4,
                required_size <= MAX_FRAME_BYTES,
            decreases self.frame_pool.len() - key,
        {
            if !self.frame_pool[key].in_use {
                let timestamp = unix_now_nanos();
                let slot = VideoFrameSlot {
                    data: vec![0u8; required_size],
                    size: required_size,
                    width,
                    height,
                    timestamp,
                    frame_number: self.frame_pool[key].frame_number,
                    in_use: true,
                };
                self.frame_pool.set(key, slot);
                self.stats.pool_hits = add_wrapping(self.stats.pool_hits, 1);
                self.stats.total_allocations = add_wrapping(self.stats.total_allocations, 1);
                self.stats.bytes_allocated = add_wrapping(self.stats.bytes_allocated, required_size as u64);
                proof {
                    assert(self.frames_in_use() =~= flags.update(key as int, true));
                    assert(flags[key as int] == false);
                }
                return Ok(VideoFrameHandle { slot_key: key });
            }
            assert(flags[key as int]);
            key = key + 1;
        }
        self.stats.pool_misses = add_wrapping(self.stats.pool_misses, 1);
        Err(AllocationError::PoolExhausted)
    }

    /// Claims the first free audio slot for `sample_count` samples at
    /// `sample_rate` with `channels` channels. More than 96000 samples are
    /// refused, and a full pool counts a miss. Four bytes per sample are
    /// counted.
    pub fn allocate_audio_buffer(&mut self, sample_count: usize, sample_rate: u32, channels: u16) -> (r: Result<AudioBufferHandle, AllocationError>)
        requires
            old(self).wf(),
        ensures
            final(self).wf(),
            final(self).frames_in_use() == old(self).frames_in_use(),
            final(self).packets_in_use() == old(self).packets_in_use(),
            sample_count > MAX_AUDIO_SAMPLES ==> r == Err::<AudioBufferHandle, AllocationError>(
                AllocationError::SizeTooLarge(sample_count),
            ) && final(self).audio_in_use() == old(self).audio_in_use()
                && final(self).spec_stats() == old(self).spec_stats(),
            sample_count <= MAX_AUDIO_SAMPLES && all_taken(old(self).audio_in_use()) ==> r
                == Err::<AudioBufferHandle, AllocationError>(AllocationError::PoolExhausted)
                && final(self).audio_in_use() == old(self).audio_in_use()
                && final(self).spec_stats() == after_miss(old(self).spec_stats()),
            sample_count <= MAX_AUDIO_SAMPLES && !all_taken(old(self).audio_in_use()) ==> (
            r matches Ok(h) && {
                &&& first_free(old(self).audio_in_use(), h.key() as int)
                &&& final(self).audio_in_use() == old(self).audio_in_use().update(
                    h.key() as int,
                    true,
                )
                &&& final(self).audio_meta(h.key() as int).0 == sample_count
                &&& final(self).audio_meta(h.key() as int).1 == sample_rate
                &&& final(self).audio_meta(h.key() as int).2 == channels
                &&& final(self).spec_stats() == after_hit(old(self).spec_stats(), sample_count * 4)
            }),
    {
        if sample_count > MAX_AUDIO_SAMPLES {
            return Err(AllocationError::SizeTooLarge(sample_count));
        }
        let ghost flags = self.audio_in_use();
        let mut key: usize = 0;
        while key < self.audio_pool.len()
            invariant
                key <= self.audio_pool@.len(),
                flags == self.audio_in_use(),
                flags == old(self).audio_in_use(),
                forall|j: int| 0 <= j < key ==> #[trigger] flags[j],
                self.frame_pool == old(self).frame_pool,
                self.audio_pool == old(self).audio_pool,
                self.packet_pool == old(self).packet_pool,
                self.stats == old(self).stats,
                self.wf(),
                sample_count <= MAX_AUDIO_SAMPLES,
            decreases self.audio_pool.len() - key,
        {
            if !self.audio_pool[key].in_use {
                let timestamp = unix_now_nanos();
                self.audio_pool.set(
                    key,
                    AudioBufferSlot { sample_count, sample_rate, channels, timestamp, in_use: true },
                );
                self.stats.pool_hits = add_wrapping(self.stats.pool_hits, 1);
                self.stats.total_allocations = add_wrapping(self.stats.total_allocations, 1);
                self.stats.bytes_allocated = add_wrapping(self.stats.bytes_allocated, (sample_count * 4) as u64);
                proof {
                    assert(self.audio_in_use() =~= flags.update(key as int, true));
                    assert(flags[key as int] == false);
                }
                return Ok(AudioBufferHandle { slot_key: key });
            }
            assert(flags[key as int]);
            key = key + 1;
        }
        self.stats.pool_misses = add_wrapping(self.stats.pool_misses, 1);
        Err(AllocationError::PoolExhausted)
    }

    /// Claims the first free packet slot for a packet of `size` bytes of
    /// type `packet_type`. Packets over 9000 bytes are refused, and a full
    /// pool counts a miss.
    pub fn allocate_packet(&mut self, size: usize, packet_type: u16) -> (r: Result<PacketHandle, AllocationError>)
        requires
            old(self).wf(),
        ensures
            final(self).wf(),
            final(self).frames_in_use() == old(self).frames_in_use(),
            final(self).audio_in_use() == old(self).audio_in_use(),
            size > MAX_PACKET_BYTES ==> r == Err::<PacketHandle, AllocationError>(
                AllocationError::SizeTooLarge(size),
            ) && final(self).packets_in_use() == old(self).packets_in_use()
                && final(self).spec_stats() == old(self).spec_stats(),
            size <= MAX_PACKET_BYTES && all_taken(old(self).packets_in_use()) ==> r
                == Err::<PacketHandle, AllocationError>(AllocationError::PoolExhausted)
                && final(self).packets_in_use() == old(self).packets_in_use()
                && final(self).spec_stats() == after_miss(old(self).spec_stats()),
            size <= MAX_PACKET_BYTES && !all_taken(old(self).packets_in_use()) ==> (r matches Ok(h)
                && {
                &&& first_free(old(self).packets_in_use(), h.key() as int)
                &&& final(self).packets_in_use() == old(self).packets_in_use().update(
                    h.key() as int,
                    true,
                )
                &&& final(self).packet_meta(h.key() as int).0 == size
                &&& final(self).packet_meta(h.key() as int).1 == packet_type
                &&& final(self).spec_stats() == after_hit(old(self).spec_stats(), size as int)
            }),
    {
        if size > MAX_PACKET_BYTES {
            return Err(AllocationError::SizeTooLarge(size));
        }
        let ghost flags = self.packets_in_use();
        let mut key: usize = 0;
        while key < self.packet_pool.len()
            invariant
                key <= self.packet_pool@.len(),
                flags == self.packets_in_use(),
                flags == old(self).packets_in_use(),
                forall|j: int| 0 <= j < key ==> #[trigger] flags[j],
                self.frame_pool == old(self).frame_pool,
                self.audio_pool == old(self).audio_pool,
                self.packet_pool == old(self).packet_pool,
                self.stats == old(self).stats,
                self.wf(),
                size <= MAX_PACKET_BYTES,
            decreases self.packet_pool.len() - key,
        {
            if !self.packet_pool[key].in_use {
                let timestamp = unix_now_nanos();
                let slot = PacketSlot {
                    data: vec![0u8; size],
                    size,
                    packet_type,
                    timestamp,
                    sequence: self.packet_pool[key].sequence,
                    in_use: true,
                };
                self.packet_pool.set(key, slot);
                self.stats.pool_hits = add_wrapping(self.stats.pool_hits, 1);
                self.stats.total_allocations = add_wrapping(self.stats.total_allocations, 1);
                self.stats.bytes_allocated = add_wrapping(self.stats.bytes_allocated, size as u64);
                proof {
                    assert(self.packets_in_use() =~= flags.update(key as int, true));
                    assert(flags[key as int] == false);
                }
                return Ok(PacketHandle { slot_key: key });
            }
            assert(flags[key as int]);
            key = key + 1;
        }
        self.stats.pool_misses = add_wrapping(self.stats.pool_misses, 1);
        Err(AllocationError::PoolExhausted)
    }

    /// Returns a frame slot to the pool and counts the release of its bytes.
    pub fn release_video_frame(&mut self, handle: VideoFrameHandle)
        requires
            old(self).wf(),
        ensures
            final(self).wf(),
            handle.key() < old(self).frames_in_use().len() ==> final(self).frames_in_use()
                == old(self).frames_in_use().update(handle.key() as int, false)
                && final(self).spec_stats() == after_release(
                old(self).spec_stats(),
                old(self).frame_meta(handle.key() as int).2 as int,
            ),
            handle.key() >= old(self).frames_in_use().len() ==> final(self).frames_in_use()
                == old(self).frames_in_use() && final(self).spec_stats() == old(self).spec_stats(),
            final(self).audio_in_use() == old(self).audio_in_use(),
            final(self).packets_in_use() == old(self).packets_in_use(),
    {
        let key = handle.slot_key;
        if key < self.frame_pool.len() {
            let size = self.frame_pool[key].size;
            let ghost flags = self.frames_in_use();
            let mut slot = VideoFrameSlot {
                data: Vec::new(),
                size: 0,
                width: 0,
                height: 0,
                timestamp: 0,
                frame_number: 0,
                in_use: false,
            };
            std::mem::swap(&mut slot, &mut self.frame_pool[key]);
            slot.in_use = false;
            std::mem::swap(&mut slot, &mut self.frame_pool[key]);
            self.stats.total_deallocations = add_wrapping(self.stats.total_deallocations, 1);
            self.stats.bytes_deallocated = add_wrapping(self.stats.bytes_deallocated, size as u64);
            proof {
                assert(self.frames_in_use() =~= flags.update(key as int, false));
            }
        }
    }

    /// Returns an audio slot to the pool and counts the release of four
    /// bytes per sample.
    pub fn release_audio_buffer(&mut self, handle: AudioBufferHandle)
        requires
            old(self).wf(),
        ensures
            final(self).wf(),
            handle.key() < old(self).audio_in_use().len() ==> final(self).audio_in_use()
                == old(self).audio_in_use().update(handle.key() as int, false)
                && final(self).spec_stats() == after_release(
                old(self).spec_stats(),
                old(self).audio_meta(handle.key() as int).0 * 4,
            ),
            handle.key() >= old(self).audio_in_use().len() ==> final(self).audio_in_use()
                == old(self).audio_in_use() && final(self).spec_stats() == old(self).spec_stats(),
            final(self).frames_in_use() == old(self).frames_in_use(),
            final(self).packets_in_use() == old(self).packets_in_use(),
    {
        let key = handle.slot_key;
        if key < self.audio_pool.len() {
            let s = &self.audio_pool[key];
            let sample_count = s.sample_count;
            let released = AudioBufferSlot {
                sample_count: s.sample_count,
                sample_rate: s.sample_rate,
                channels: s.channels,
                timestamp: s.timestamp,
                in_use: false,
            };
            let ghost flags = self.audio_in_use();
            self.audio_pool.set(key, released);
            self.stats.total_deallocations = add_wrapping(self.stats.total_deallocations, 1);
            assert(sample_count <= usize::MAX);
            let bytes: u128 = sample_count as u128 * 4;
            self.stats.bytes_deallocated = ((self.stats.bytes_deallocated as u128 + bytes) % 0x1_0000_0000_0000_0000) as u64;
            proof {
                assert(self.audio_in_use() =~= flags.update(key as int, false));
            }
        }
    }

    /// Returns a packet slot to the pool and counts the release of its bytes.
    pub fn release_packet(&mut self, handle: PacketHandle)
        requires
            old(self).wf(),
        ensures
            final(self).wf(),
            handle.key() < old(self).packets_in_use().len() ==> final(self).packets_in_use()
                == old(self).packets_in_use().update(handle.key() as int, false)
                && final(self).spec_stats() == after_release(
                old(self).spec_stats(),
                old(self).packet_meta(handle.key() as int).0 as int,
            ),
            handle.key() >= old(self).packets_in_use().len() ==> final(self).packets_in_use()
                == old(self).packets_in_use() && final(self).spec_stats() == old(self).spec_stats(),
            final(self).frames_in_use() == old(self).frames_in_use(),
            final(self).audio_in_use() == old(self).audio_in_use(),
    {
        let key = handle.slot_key;
        if key < self.packet_pool.len() {
            let size = self.packet_pool[key].size;
            let ghost flags = self.packets_in_use();
            let mut slot = PacketSlot {
                data: Vec::new(),
                size: 0,
                packet_type: 0,
                timestamp: 0,
                sequence: 0,
                in_use: false,
            };
            std::mem::swap(&mut slot, &mut self.packet_pool[key]);
            slot.in_use = false;
            std::mem::swap(&mut slot, &mut self.packet_pool[key]);
            self.stats.total_deallocations = add_wrapping(self.stats.total_deallocations, 1);
            self.stats.bytes_deallocated = add_wrapping(self.stats.bytes_deallocated, size as u64);
            proof {
                assert(self.packets_in_use() =~= flags.update(key as int, false));
            }
        }
    }

    /// The frame bytes of a claimed slot.
    pub fn frame_data_mut(&mut self, handle: &VideoFrameHandle) -> (d: &mut [u8])
        requires
            old(self).wf(),
            handle.key() < old(self).frames_in_use().len(),
        ensures
            d@.len() == old(self).frame_meta(handle.key() as int).2,
    {
        let key = handle.slot_key;
        let size = self.frame_pool[key].size;
        let slot = &mut self.frame_pool[key];
        let (head, _) = slot.data.as_mut_slice().split_at_mut(size);
        head
    }

    /// The packet bytes of a claimed slot.
    pub fn packet_data_mut(&mut self, handle: &PacketHandle) -> (d: &mut [u8])
        requires
            old(self).wf(),
            handle.key() < old(self).packets_in_use().len(),
        ensures
            d@.len() == old(self).packet_meta(handle.key() as int).0,
    {
        let key = handle.slot_key;
        let size = self.packet_pool[key].size;
        let slot = &mut self.packet_pool[key];
        let (head, _) = slot.data.as_mut_slice().split_at_mut(size);
        head
    }

    /// Width, height and timestamp of a claimed frame.
    pub fn frame_metadata(&self, handle: &VideoFrameHandle) -> (m: (u32, u32, u64))
        requires
            handle.key() < self.frames_in_use().len(),
        ensures
            m == (self.frame_meta(handle.key() as int).0, self.frame_meta(handle.key() as int).1, self.frame_meta(handle.key() as int).3),
    {
        let s = &self.frame_pool[handle.slot_key];
        (s.width, s.height, s.timestamp)
    }

    /// Rate, channels and timestamp of a claimed audio buffer.
    pub fn audio_metadata(&self, handle: &AudioBufferHandle) -> (m: (u32, u16, u64))
        requires
            handle.key() < self.audio_in_use().len(),
        ensures
            m == (self.audio_meta(handle.key() as int).1, self.audio_meta(handle.key() as int).2, self.audio_meta(handle.key() as int).3),
    {
        let s = &self.audio_pool[handle.slot_key];
        (s.sample_rate, s.channels, s.timestamp)
    }

    /// The sample count of a claimed audio buffer.
    pub fn audio_sample_count(&self, handle: &AudioBufferHandle) -> (n: usize)
        requires
            handle.key() < self.audio_in_use().len(),
        ensures
            n == self.audio_meta(handle.key() as int).0,
    {
        self.audio_pool[handle.slot_key].sample_count
    }

    /// Type, timestamp and sequence number of a claimed packet.
    pub fn packet_metadata(&self, handle: &PacketHandle) -> (m: (u16, u64, u32))
        requires
            handle.key() < self.packets_in_use().len(),
        ensures
            m == (self.packet_meta(handle.key() as int).1, self.packet_meta(handle.key() as int).2, self.packet_meta(handle.key() as int).3),
    {
        let s = &self.packet_pool[handle.slot_key];
        (s.packet_type, s.timestamp, s.sequence)
    }

    /// The counters; the peak usage is raised to the current usage first.
    pub fn get_stats(&mut self) -> (s: MemoryStats)
        requires
            old(self).wf(),
        ensures
            final(self).wf(),
            s == final(self).spec_stats(),
            final(self).spec_stats() == (MemoryStats {
                peak_memory_usage: if old(self).spec_stats().current_memory_usage > old(self).spec_stats().peak_memory_usage {
                    old(self).spec_stats().current_memory_usage
                } else {
                    old(self).spec_stats().peak_memory_usage
                },
                ..old(self).spec_stats()
            }),
            final(self).frames_in_use() == old(self).frames_in_use(),
            final(self).audio_in_use() == old(self).audio_in_use(),
            final(self).packets_in_use() == old(self).packets_in_use(),
    {
        if self.stats.current_memory_usage > self.stats.peak_memory_usage {
            self.stats.peak_memory_usage = self.stats.current_memory_usage;
        }
        self.stats
    }

    /// Zeroes the counters, except the peak and current usage.
    pub fn reset_stats(&mut self)
        requires
            old(self).wf(),
        ensures
            final(self).wf(),
            final(self).spec_stats() == (MemoryStats {
                total_allocations: 0,
                total_deallocations: 0,
                bytes_allocated: 0,
                bytes_deallocated: 0,
                pool_hits: 0,
                pool_misses: 0,
                arena_allocations: 0,
                ..old(self).spec_stats()
            }),
            final(self).frames_in_use() == old(self).frames_in_use(),
            final(self).audio_in_use() == old(self).audio_in_use(),
            final(self).packets_in_use() == old(self).packets_in_use(),
    {
        self.stats.total_allocations = 0;
        self.stats.total_deallocations = 0;
        self.stats.bytes_allocated = 0;
        self.stats.bytes_deallocated = 0;
        self.stats.pool_hits = 0;
        self.stats.pool_misses = 0;
        self.stats.arena_allocations = 0;
    }
}

/// Claiming the first free slot and returning it leaves the slots as they
/// were, so the same slot is the first free one again.
pub proof fn lemma_release_frees_first(in_use: Seq<bool>, k: int)
    requires
        first_free(in_use, k),
    ensures
        first_free(in_use.update(k, true).update(k, false), k),
{
    assert(in_use.update(k, true).update(k, false) =~= in_use);
}

} // verus!
