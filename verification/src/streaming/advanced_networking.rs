//! The zero-copy networking layer: its settings and message types, the
//! pre-filled packet pools of its processor, its counters, and how it
//! reacts to latency and loss.

use crate::error::error_with_message;
use crate::streaming::lock_free::clock_now;
use std::collections::HashMap;
use std::collections::VecDeque;
use std::time::Instant;
use vstd::prelude::*;

verus! {

/// Settings of the networking layer.
#[derive(Debug, Clone)]
pub struct NetworkConfig {
    pub enable_io_uring: bool,
    pub enable_rdma: bool,
    pub io_uring_queue_depth: u32,
    pub rdma_queue_depth: u32,
    pub batch_processing_size: usize,
    /// In bytes.
    pub zero_copy_threshold: usize,
    pub cpu_affinity: Vec<usize>,
    pub interrupt_coalescing: bool,
}

/// How a connection moves its bytes.
#[derive(Debug, Clone, Copy, PartialEq, Eq)]
pub enum ConnectionType {
    Standard,
    IoUring,
    Rdma,
}

/// Where a connection stands.
#[derive(Debug, Clone, Copy, PartialEq, Eq)]
pub enum ConnectionState {
    Connecting,
    Connected,
    Disconnecting,
    Disconnected,
}

/// A completed io_uring operation.
#[derive(Debug, Clone, Copy, PartialEq, Eq)]
pub struct IoUringCompletion {
    pub user_data: u64,
    pub result: i32,
    pub flags: u32,
}

/// Kinds of io_uring operation.
#[derive(Debug, Clone, Copy, PartialEq, Eq)]
pub enum IoUringOpType {
    Read,
    Write,
    SendMsg,
    RecvMsg,
}

/// Settings of an RDMA device.
#[derive(Debug, Clone)]
pub struct RdmaConfig {
    pub device_name: String,
    pub port_num: u8,
    pub queue_depth: u32,
    pub max_inline_data: u32,
    pub completion_vector: i32,
}

/// The queues of an RDMA connection.
#[derive(Debug, Clone, Copy, PartialEq, Eq)]
pub struct RdmaQueuePair {
    pub qp_num: u32,
    pub send_queue_depth: u32,
    pub recv_queue_depth: u32,
    pub max_send_wr: u32,
    pub max_recv_wr: u32,
}

/// Where an RDMA connection stands.
#[derive(Debug, Clone, Copy, PartialEq, Eq)]
pub enum RdmaConnectionState {
    Init,
    Ready,
    Error,
}

/// Counters of an RDMA connection.
#[derive(Debug, Default, Clone, Copy, PartialEq, Eq)]
pub struct RdmaConnectionStats {
    pub rdma_reads: u64,
    pub rdma_writes: u64,
    pub rdma_sends: u64,
    pub rdma_receives: u64,
    pub completion_errors: u64,
    pub average_latency_ns: u64,
}

/// A buffer of a packet pool.
#[derive(Debug)]
pub struct PacketBuffer {
    pub buffer_id: u64,
    pub data: Vec<u8>,
    pub capacity: usize,
    pub length: usize,
    pub timestamp: Instant,
}

/// Counters of a packet pool.
#[derive(Debug, Default, Clone, Copy, PartialEq, Eq)]
pub struct PacketPoolStats {
    pub allocations: u64,
    pub deallocations: u64,
    pub pool_hits: u64,
    pub pool_misses: u64,
}

/// Buffers of one size, allocated up front.
#[derive(Debug)]
pub struct PacketPool {
    pub pool_id: u32,
    pub packet_size: usize,
    pub pool_size: usize,
    pub available_packets: VecDeque<PacketBuffer>,
    pub allocated_packets: HashMap<u64, PacketBuffer>,
    pub stats: PacketPoolStats,
}

/// What a message carries.
#[derive(Debug, Clone, Copy, PartialEq, Eq)]
pub enum MessageType {
    VideoFrame,
    AudioFrame,
    Control,
    Heartbeat,
}

/// How urgent a message is.
#[derive(Debug, Clone, Copy, PartialEq, Eq)]
pub enum MessagePriority {
    Low,
    Normal,
    High,
    Critical,
}

/// A message to send or one received.
#[derive(Debug)]
pub struct NetworkMessage {
    pub data: Vec<u8>,
    pub msg_type: MessageType,
    pub priority: MessagePriority,
    pub timestamp: Instant,
}

/// The id of buffer `i` of pool `pool_id`: the pool in the high 32 bits,
/// the index in the low ones.
pub open spec fn buffer_id_of(pool_id: u32, i: u64) -> u64 {
    (pool_id as u64) << 32u64 | i
}

proof fn lemma_buffer_id(pool_id: u32, i: u64)
    requires
        i < 0x1_0000_0000,
    ensures
        buffer_id_of(pool_id, i) == pool_id * 0x1_0000_0000 + i,
{
    assert(((pool_id as u64) << 32u64 | i) == (pool_id as u64) * 0x1_0000_0000u64 + i) by (bit_vector)
        requires
            i < 0x1_0000_0000u64,
    ;
}

impl PacketPool {
    /// A pool of `pool_size` zeroed buffers of `packet_size` bytes, all
    /// available, numbered from 0 within the pool.
    pub fn new(pool_id: u32, packet_size: usize, pool_size: usize) -> (r: Result<Self, anyhow::Error>)
        ensures
            r matches Ok(p) && {
                &&& p.pool_id == pool_id
                &&& p.packet_size == packet_size
                &&& p.pool_size == pool_size
                &&& p.available_packets@.len() == pool_size
                &&& p.allocated_packets@ == Map::<u64, PacketBuffer>::empty()
                &&& p.stats == PacketPoolStats {
                    allocations: 0,
                    deallocations: 0,
                    pool_hits: 0,
                    pool_misses: 0,
                }
                &&& forall|i: int|
                    0 <= i < pool_size ==> {
                        let b = #[trigger] p.available_packets@[i];
                        &&& b.buffer_id == buffer_id_of(pool_id, i as u64)
                        &&& (i < 0x1_0000_0000 ==> b.buffer_id == pool_id * 0x1_0000_0000 + i)
                        &&& b.capacity == packet_size
                        &&& b.length == 0
                        &&& b.data@.len() == packet_size
                        &&& forall|j: int| 0 <= j < packet_size ==> #[trigger] b.data@[j] == 0u8
                    }
            },
    {
        let mut available_packets: VecDeque<PacketBuffer> = VecDeque::with_capacity(pool_size);
        let mut i: usize = 0;
        while i < pool_size
            invariant
                i <= pool_size,
                available_packets@.len() == i,
                forall|k: int|
                    0 <= k < i ==> {
                        let b = #[trigger] available_packets@[k];
                        &&& b.buffer_id == buffer_id_of(pool_id, k as u64)
                        &&& (k < 0x1_0000_0000 ==> b.buffer_id == pool_id * 0x1_0000_0000 + k)
                        &&& b.capacity == packet_size
                        &&& b.length == 0
                        &&& b.data@.len() == packet_size
                        &&& forall|j: int| 0 <= j < packet_size ==> #[trigger] b.data@[j] == 0u8
                    },
            decreases pool_size - i,
        {
            let index: u64 = i as u64;
            proof {
                if index < 0x1_0000_0000 {
                    lemma_buffer_id(pool_id, index);
                }
            }
            let buffer = PacketBuffer {
                buffer_id: (pool_id as u64) << 32u64 | index,
                data: vec![0u8; packet_size],
                capacity: packet_size,
                length: 0,
                timestamp: clock_now(),
            };
            available_packets.push_back(buffer);
            i = i + 1;
        }
        Ok(
            PacketPool {
                pool_id,
                packet_size,
                pool_size,
                available_packets,
                allocated_packets: HashMap::new(),
                stats: PacketPoolStats { allocations: 0, deallocations: 0, pool_hits: 0, pool_misses: 0 },
            },
        )
    }
}

/// Latency above which the layer tunes itself: one millisecond.
pub const HIGH_LATENCY_NS: u64 = 1_000_000;

/// The batch size the layer raises a smaller one to under high latency.
pub const TUNED_BATCH_SIZE: usize = 64;

/// What the layer changes after a look at its counters.
#[derive(Debug, Clone, Copy, PartialEq, Eq)]
pub struct NetworkAdjustment {
    /// Turn io_uring on now.
    pub start_io_uring: bool,
    /// Turn RDMA on now.
    pub start_rdma: bool,
    /// The batch size from now on.
    pub batch_processing_size: usize,
}

/// How the layer reacts to its counters: above a millisecond of average
/// latency it turns io_uring on where the settings allow it and it is off,
/// and raises a batch size under 64 to 64; under heavy packet loss it turns
/// RDMA on where the settings allow it and it is off.
pub fn plan_network_optimization(
    config: &NetworkConfig,
    io_uring_enabled: bool,
    rdma_enabled: bool,
    average_latency_ns: u64,
    high_packet_loss: bool,
) -> (a: NetworkAdjustment)
    ensures
        a.start_io_uring == (average_latency_ns > HIGH_LATENCY_NS && !io_uring_enabled
            && config.enable_io_uring),
        a.start_rdma == (high_packet_loss && !rdma_enabled && config.enable_rdma),
        a.batch_processing_size == if average_latency_ns > HIGH_LATENCY_NS
            && config.batch_processing_size < TUNED_BATCH_SIZE {
            TUNED_BATCH_SIZE
        } else {
            config.batch_processing_size
        },
{
    let mut adjustment = NetworkAdjustment {
        start_io_uring: false,
        start_rdma: false,
        batch_processing_size: config.batch_processing_size,
    };
    if average_latency_ns > HIGH_LATENCY_NS {
        if !io_uring_enabled && config.enable_io_uring {
            adjustment.start_io_uring = true;
        }
        if config.batch_processing_size < TUNED_BATCH_SIZE {
            adjustment.batch_processing_size = TUNED_BATCH_SIZE;
        }
    }
    if high_packet_loss && !rdma_enabled && config.enable_rdma {
        adjustment.start_rdma = true;
    }
    adjustment
}

/// Counters of the networking layer. Packet loss is in parts per million.
#[derive(Debug, Default, Clone, Copy, PartialEq, Eq)]
pub struct NetworkStats {
    pub total_connections: u64,
    pub active_connections: u64,
    pub io_uring_operations: u64,
    pub rdma_operations: u64,
    pub zero_copy_operations: u64,
    pub average_latency_ns: u64,
    pub packet_loss_ppm: u64,
}

/// Packet loss above which the layer reacts: one percent.
pub const HIGH_PACKET_LOSS_PPM: u64 = 10_000;

/// Counters of the packet processor.
#[derive(Debug, Default, Clone, Copy, PartialEq, Eq)]
pub struct ProcessingStats {
    pub packets_processed: u64,
    pub zero_copy_packets: u64,
    pub batch_operations: u64,
    pub processing_time_ns: u64,
}

/// The pools of the packet processor, by packet and pool size: control
/// packets, MTU-sized ones, jumbo video packets and bulk data.
pub open spec fn processor_pool_shapes() -> Seq<(usize, usize)> {
    seq![(64usize, 1000usize), (1500usize, 500usize), (9000usize, 100usize), (65536usize, 50usize)]
}

/// Processes packets in batches out of its pools.
pub struct PacketProcessor {
    zero_copy_enabled: bool,
    batch_size: usize,
    packet_pools: Vec<PacketPool>,
    processing_stats: ProcessingStats,
}

impl PacketProcessor {
    pub closed spec fn spec_batch_size(&self) -> usize {
        self.batch_size
    }

    /// The id, packet size and pool size of each pool.
    pub closed spec fn spec_pools(&self) -> Seq<(u32, usize, usize)> {
        self.packet_pools@.map_values(|p: PacketPool| (p.pool_id, p.packet_size, p.pool_size))
    }

    pub closed spec fn spec_zero_copy(&self) -> bool {
        self.zero_copy_enabled
    }

    pub closed spec fn spec_stats(&self) -> ProcessingStats {
        self.processing_stats
    }

    /// A zero-copy processor for batches of `batch_size`, with the pools of
    /// `processor_pool_shapes` numbered 0 to 3 and zeroed counters.
    pub fn new(batch_size: usize) -> (r: Result<Self, anyhow::Error>)
        ensures
            r matches Ok(p) && {
                &&& p.spec_batch_size() == batch_size
                &&& p.spec_zero_copy()
                &&& p.spec_stats() == ProcessingStats {
                    packets_processed: 0,
                    zero_copy_packets: 0,
                    batch_operations: 0,
                    processing_time_ns: 0,
                }
                &&& p.spec_pools().len() == 4
                &&& forall|i: int|
                    0 <= i < 4 ==> #[trigger] p.spec_pools()[i] == (
                        i as u32,
                        processor_pool_shapes()[i].0,
                        processor_pool_shapes()[i].1,
                    )
            },
    {
        let mut packet_pools: Vec<PacketPool> = Vec::new();
        match PacketPool::new(0, 64, 1000) {
            Ok(p) => packet_pools.push(p),
            Err(e) => {
                return Err(e);
            },
        }
        match PacketPool::new(1, 1500, 500) {
            Ok(p) => packet_pools.push(p),
            Err(e) => {
                return Err(e);
            },
        }
        match PacketPool::new(2, 9000, 100) {
            Ok(p) => packet_pools.push(p),
            Err(e) => {
                return Err(e);
            },
        }
        match PacketPool::new(3, 65536, 50) {
            Ok(p) => packet_pools.push(p),
            Err(e) => {
                return Err(e);
            },
        }
        let processor = PacketProcessor {
            zero_copy_enabled: true,
            batch_size,
            packet_pools,
            processing_stats: ProcessingStats {
                packets_processed: 0,
                zero_copy_packets: 0,
                batch_operations: 0,
                processing_time_ns: 0,
            },
        };
        assert(processor.spec_pools()[0] == (0u32, 64usize, 1000usize));
        assert(processor.spec_pools()[1] == (1u32, 1500usize, 500usize));
        assert(processor.spec_pools()[2] == (2u32, 9000usize, 100usize));
        assert(processor.spec_pools()[3] == (3u32, 65536usize, 50usize));
        Ok(processor)
    }
}

/// The networking layer: whether io_uring and RDMA are on, its settings,
/// its counters and its packet processor.
pub struct AdvancedNetworkingSystem {
    io_uring_enabled: bool,
    rdma_enabled: bool,
    config: NetworkConfig,
    stats: NetworkStats,
    packet_processor: PacketProcessor,
}

impl AdvancedNetworkingSystem {
    pub closed spec fn spec_io_uring(&self) -> bool {
        self.io_uring_enabled
    }

    pub closed spec fn spec_rdma(&self) -> bool {
        self.rdma_enabled
    }

    pub closed spec fn spec_config(&self) -> NetworkConfig {
        self.config
    }

    pub closed spec fn spec_stats(&self) -> NetworkStats {
        self.stats
    }

    pub closed spec fn spec_processor(&self) -> PacketProcessor {
        self.packet_processor
    }

    /// A layer with io_uring and RDMA on as `config` asks, zeroed counters
    /// and a processor for its batch size.
    pub fn new(config: NetworkConfig) -> (r: Result<Self, anyhow::Error>)
        ensures
            r matches Ok(n) && {
                &&& n.spec_io_uring() == config.enable_io_uring
                &&& n.spec_rdma() == config.enable_rdma
                &&& n.spec_config() == config
                &&& n.spec_stats() == NetworkStats {
                    total_connections: 0,
                    active_connections: 0,
                    io_uring_operations: 0,
                    rdma_operations: 0,
                    zero_copy_operations: 0,
                    average_latency_ns: 0,
                    packet_loss_ppm: 0,
                }
                &&& n.spec_processor().spec_batch_size() == config.batch_processing_size
            },
    {
        let packet_processor = match PacketProcessor::new(config.batch_processing_size) {
            Ok(p) => p,
            Err(e) => {
                return Err(e);
            },
        };
        Ok(
            AdvancedNetworkingSystem {
                io_uring_enabled: config.enable_io_uring,
                rdma_enabled: config.enable_rdma,
                config,
                stats: NetworkStats {
                    total_connections: 0,
                    active_connections: 0,
                    io_uring_operations: 0,
                    rdma_operations: 0,
                    zero_copy_operations: 0,
                    average_latency_ns: 0,
                    packet_loss_ppm: 0,
                },
                packet_processor,
            },
        )
    }

    /// Readies io_uring when it is on; there is nothing to set up here, so
    /// it succeeds and changes nothing.
    pub fn initialize_io_uring(&mut self) -> (r: Result<(), anyhow::Error>)
        ensures
            r is Ok,
            *final(self) == *old(self),
    {
        Ok(())
    }

    /// Readies RDMA when it is on; there is nothing to set up here, so it
    /// succeeds and changes nothing.
    pub fn initialize_rdma(&mut self) -> (r: Result<(), anyhow::Error>)
        ensures
            r is Ok,
            *final(self) == *old(self),
    {
        Ok(())
    }

    fn process_video_packet_zero_copy(&self, packet: NetworkMessage) -> (r: Result<(), anyhow::Error>)
        ensures
            r is Ok,
    {
        Ok(())
    }

    fn process_audio_packet_zero_copy(&self, packet: NetworkMessage) -> (r: Result<(), anyhow::Error>)
        ensures
            r is Ok,
    {
        Ok(())
    }

    fn process_control_packet(&self, packet: NetworkMessage) -> (r: Result<(), anyhow::Error>)
        ensures
            r is Ok,
    {
        Ok(())
    }

    fn process_heartbeat_packet(&self, packet: NetworkMessage) -> (r: Result<(), anyhow::Error>)
        ensures
            r is Ok,
    {
        Ok(())
    }

    /// Routes each message by its type, then counts one zero-copy
    /// operation for the batch.
    pub fn process_packets_zero_copy(&mut self, packets: Vec<NetworkMessage>) -> (r: Result<(), anyhow::Error>)
        ensures
            r is Ok,
            final(self).spec_stats() == (NetworkStats {
                zero_copy_operations: old(self).spec_stats().zero_copy_operations.wrapping_add(1),
                ..old(self).spec_stats()
            }),
            final(self).spec_io_uring() == old(self).spec_io_uring(),
            final(self).spec_rdma() == old(self).spec_rdma(),
            final(self).spec_config() == old(self).spec_config(),
            final(self).spec_processor() == old(self).spec_processor(),
    {
        let mut packets = packets;
        while packets.len() > 0
            invariant
                *self == *old(self),
            decreases packets@.len(),
        {
            let packet = packets.remove(0);
            let routed = match packet.msg_type {
                MessageType::VideoFrame => self.process_video_packet_zero_copy(packet),
                MessageType::AudioFrame => self.process_audio_packet_zero_copy(packet),
                MessageType::Control => self.process_control_packet(packet),
                MessageType::Heartbeat => self.process_heartbeat_packet(packet),
            };
            match routed {
                Ok(()) => {},
                Err(e) => {
                    return Err(e);
                },
            }
        }
        self.stats.zero_copy_operations = self.stats.zero_copy_operations.wrapping_add(1);
        Ok(())
    }

    /// Sends over RDMA: refused while RDMA is off, else counted.
    pub fn send_rdma(&mut self, data: Vec<u8>) -> (r: Result<(), anyhow::Error>)
        ensures
            !old(self).spec_rdma() ==> r is Err && *final(self) == *old(self),
            old(self).spec_rdma() ==> r is Ok && final(self).spec_stats() == (NetworkStats {
                rdma_operations: old(self).spec_stats().rdma_operations.wrapping_add(1),
                ..old(self).spec_stats()
            }),
            final(self).spec_io_uring() == old(self).spec_io_uring(),
            final(self).spec_rdma() == old(self).spec_rdma(),
            final(self).spec_config() == old(self).spec_config(),
            final(self).spec_processor() == old(self).spec_processor(),
    {
        if !self.rdma_enabled {
            return Err(error_with_message(String::from_str("RDMA not enabled")));
        }
        self.stats.rdma_operations = self.stats.rdma_operations.wrapping_add(1);
        Ok(())
    }

    /// The counters.
    pub fn get_network_stats(&self) -> (s: NetworkStats)
        ensures
            s == self.spec_stats(),
    {
        self.stats
    }

    /// Tunes the layer by its counters, as `plan_network_optimization`
    /// plans it: io_uring on, a larger batch size, RDMA on.
    pub fn optimize_network_configuration(&mut self) -> (r: Result<(), anyhow::Error>)
        ensures
            r is Ok,
            ({
                let s = old(self).spec_stats();
                let c = old(self).spec_config();
                let high_latency = s.average_latency_ns > HIGH_LATENCY_NS;
                let high_loss = s.packet_loss_ppm > HIGH_PACKET_LOSS_PPM;
                &&& final(self).spec_io_uring() == (old(self).spec_io_uring() || (high_latency
                    && c.enable_io_uring))
                &&& final(self).spec_rdma() == (old(self).spec_rdma() || (high_loss && c.enable_rdma))
                &&& final(self).spec_config() == NetworkConfig {
                    batch_processing_size: if high_latency && c.batch_processing_size
                        < TUNED_BATCH_SIZE {
                        TUNED_BATCH_SIZE
                    } else {
                        c.batch_processing_size
                    },
                    ..c
                }
            }),
            final(self).spec_stats() == old(self).spec_stats(),
            final(self).spec_processor() == old(self).spec_processor(),
    {
        let stats = self.get_network_stats();
        let plan = plan_network_optimization(
            &self.config,
            self.io_uring_enabled,
            self.rdma_enabled,
            stats.average_latency_ns,
            stats.packet_loss_ppm > HIGH_PACKET_LOSS_PPM,
        );
        if plan.start_io_uring {
            self.io_uring_enabled = true;
            match self.initialize_io_uring() {
                Ok(()) => {},
                Err(e) => {
                    return Err(e);
                },
            }
        }
        self.config.batch_processing_size = plan.batch_processing_size;
        if plan.start_rdma {
            self.rdma_enabled = true;
            match self.initialize_rdma() {
                Ok(()) => {},
                Err(e) => {
                    return Err(e);
                },
            }
        }
        Ok(())
    }
}

} // verus!
