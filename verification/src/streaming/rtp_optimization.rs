//! RTP packets: their header layout, parsing and generation.

use crate::error::{DpstreamError, StreamingError};
use crate::streaming::lock_free::{clock_now, nanos_since};
use crate::streaming::simd_ops::CPUCapabilities;
use arrayvec::ArrayVec;
use smallvec::SmallVec;
use vstd::prelude::*;

verus! {

#[verifier::external_type_specification]
#[verifier::external_body]
#[verifier::reject_recursive_types(T)]
pub struct ExArrayVec<T, const CAP: usize>(ArrayVec<T, CAP>);

/// Packet bytes held in a `SmallVec` that keeps up to one MTU inline.
#[verifier::external_body]
pub struct PacketBytes {
    bytes: SmallVec<[u8; 1500]>,
}

/// The identifiers an `ArrayVec` of contributing sources holds, in order.
pub uninterp spec fn csrc_values(list: ArrayVec<u32, 15>) -> Seq<u32>;

/// The bytes a `PacketBytes` holds, in order.
pub uninterp spec fn payload_bytes(payload: PacketBytes) -> Seq<u8>;

/// `ArrayVec::new`: an empty list.
#[verifier::external_body]
pub(crate) fn csrc_list_new() -> (l: ArrayVec<u32, 15>)
    ensures
        csrc_values(l) == Seq::<u32>::empty(),
{
    ArrayVec::new()
}

/// `ArrayVec::push`: the value joins the end; the list must not be full.
#[verifier::external_body]
pub(crate) fn csrc_list_push(l: &mut ArrayVec<u32, 15>, value: u32)
    requires
        csrc_values(*old(l)).len() < 15,
    ensures
        csrc_values(*final(l)) == csrc_values(*old(l)).push(value),
{
    l.push(value);
}

/// `ArrayVec::as_slice`: the values in order.
#[verifier::external_body]
pub(crate) fn csrc_list_slice(l: &ArrayVec<u32, 15>) -> (s: &[u32])
    ensures
        s@ == csrc_values(*l),
{
    l.as_slice()
}

impl PacketBytes {
    /// `SmallVec::from_slice`: a copy of the bytes.
    #[verifier::external_body]
    pub(crate) fn copy_of(bytes: &[u8]) -> (p: Self)
        ensures
            payload_bytes(p) == bytes@,
    {
        PacketBytes { bytes: SmallVec::from_slice(bytes) }
    }

    /// `SmallVec::from_vec`: the vector's bytes.
    #[verifier::external_body]
    pub(crate) fn of_vec(bytes: Vec<u8>) -> (p: Self)
        ensures
            payload_bytes(p) == bytes@,
    {
        PacketBytes { bytes: SmallVec::from_vec(bytes) }
    }

    /// `SmallVec::as_slice`: the bytes in order.
    #[verifier::external_body]
    pub(crate) fn slice(&self) -> (s: &[u8])
        ensures
            s@ == payload_bytes(*self),
    {
        self.bytes.as_slice()
    }

    /// `SmallVec::len`: the number of bytes.
    #[verifier::external_body]
    pub(crate) fn count(&self) -> (n: usize)
        ensures
            n == payload_bytes(*self).len(),
    {
        self.bytes.len()
    }
}


impl PacketBytes {
    /// Packet bytes holding a copy of `bytes`.
    pub fn from_slice(bytes: &[u8]) -> (p: Self)
        ensures
            payload_bytes(p) == bytes@,
    {
        Self::copy_of(bytes)
    }

    /// The bytes in order.
    pub fn as_slice(&self) -> (s: &[u8])
        ensures
            s@ == payload_bytes(*self),
    {
        self.slice()
    }

    /// The number of bytes.
    pub fn len(&self) -> (n: usize)
        ensures
            n == payload_bytes(*self).len(),
    {
        self.count()
    }
}

/// An empty list of contributing sources.
pub fn empty_csrc_list() -> (l: ArrayVec<u32, 15>)
    ensures
        csrc_values(l) == Seq::<u32>::empty(),
{
    csrc_list_new()
}

/// A list of contributing sources holding `values`, at most fifteen.
pub fn csrc_list_of(values: &[u32]) -> (l: ArrayVec<u32, 15>)
    requires
        values@.len() <= 15,
    ensures
        csrc_values(l) == values@,
{
    let mut l = csrc_list_new();
    let mut i: usize = 0;
    while i < values.len()
        invariant
            i <= values@.len(),
            values@.len() <= 15,
            csrc_values(l) == values@.take(i as int),
        decreases values.len() - i,
    {
        csrc_list_push(&mut l, values[i]);
        assert(values@.take(i + 1) =~= values@.take(i as int).push(values@[i as int]));
        i = i + 1;
    }
    assert(values@.take(values@.len() as int) =~= values@);
    l
}

/// An RTP packet.
pub struct FastRtpPacket {
    pub version: u8,
    pub padding: bool,
    pub extension: bool,
    pub csrc_count: u8,
    pub marker: bool,
    pub payload_type: u8,
    pub sequence_number: u16,
    pub timestamp: u32,
    pub ssrc: u32,
    pub csrc_list: ArrayVec<u32, 15>,
    pub payload: PacketBytes,
    pub parse_time_ns: u64,
    pub parsed_with_simd: bool,
}

/// The fields of an RTP packet as plain values.
pub struct RtpFields {
    pub version: u8,
    pub padding: bool,
    pub extension: bool,
    pub csrc_count: u8,
    pub marker: bool,
    pub payload_type: u8,
    pub sequence_number: u16,
    pub timestamp: u32,
    pub ssrc: u32,
    pub csrcs: Seq<u32>,
    pub payload: Seq<u8>,
}

/// The fields of a packet.
pub open spec fn fields_of(p: FastRtpPacket) -> RtpFields {
    RtpFields {
        version: p.version,
        padding: p.padding,
        extension: p.extension,
        csrc_count: p.csrc_count,
        marker: p.marker,
        payload_type: p.payload_type,
        sequence_number: p.sequence_number,
        timestamp: p.timestamp,
        ssrc: p.ssrc,
        csrcs: csrc_values(p.csrc_list),
        payload: payload_bytes(p.payload),
    }
}

/// A 16-bit big-endian number at `at`.
pub open spec fn be16(d: Seq<u8>, at: int) -> u16 {
    (d[at] as int * 256 + d[at + 1] as int) as u16
}

/// A 32-bit big-endian number at `at`.
pub open spec fn be32(d: Seq<u8>, at: int) -> u32 {
    (d[at] as int * 16777216 + d[at + 1] as int * 65536 + d[at + 2] as int * 256 + d[at + 3] as int) as u32
}

/// The contributing source identifiers of a header: `n` big-endian words
/// from byte 12.
pub open spec fn csrc_words(d: Seq<u8>, n: nat) -> Seq<u32> {
    Seq::new(n, |i: int| be32(d, 12 + 4 * i))
}

/// Where the payload starts: after the fixed header, the contributing
/// sources and, when the extension bit is set, the extension header of four
/// bytes plus four bytes per word of its length field.
pub open spec fn payload_offset(d: Seq<u8>) -> int {
    let cc = (d[0] & 0x0F) as int;
    let after_csrc = 12 + 4 * cc;
    if d[0] & 0x10 != 0 {
        after_csrc + 4 + 4 * (be16(d, after_csrc + 2) as int)
    } else {
        after_csrc
    }
}

/// Whether `d` holds a whole RTP packet: a fixed header, the contributing
/// sources it announces, the extension header if announced, and the
/// extension's words.
pub open spec fn rtp_well_formed(d: Seq<u8>) -> bool {
    let cc = (d[0] & 0x0F) as int;
    &&& d.len() >= 12
    &&& d.len() >= 12 + 4 * cc
    &&& (d[0] & 0x10 != 0 ==> d.len() >= 12 + 4 * cc + 4)
    &&& payload_offset(d) <= d.len()
}

/// The fields of the packet in `d`, which must be well formed.
pub open spec fn rtp_fields(d: Seq<u8>) -> RtpFields {
    RtpFields {
        version: (d[0] >> 6) & 0x03,
        padding: d[0] & 0x20 != 0,
        extension: d[0] & 0x10 != 0,
        csrc_count: d[0] & 0x0F,
        marker: d[1] & 0x80 != 0,
        payload_type: d[1] & 0x7F,
        sequence_number: be16(d, 2),
        timestamp: be32(d, 4),
        ssrc: be32(d, 8),
        csrcs: csrc_words(d, (d[0] & 0x0F) as nat),
        payload: d.subrange(payload_offset(d), d.len() as int),
    }
}

/// Counters of the packet processor.
#[derive(Debug, Clone, Copy, PartialEq, Eq)]
pub struct RtpProcessingStats {
    pub packets_processed: u64,
    pub packets_parsed_simd: u64,
    pub packets_parsed_scalar: u64,
    pub average_parse_time_ns: u64,
    pub total_bytes_processed: u64,
    pub parsing_errors: u64,
}

/// `x + n` modulo 2^64.
pub open spec fn wrapped_add(x: u64, n: int) -> u64 {
    ((x + n) % 0x1_0000_0000_0000_0000) as u64
}

/// `x + n` modulo 2^64.
fn add_wrapping(x: u64, n: u64) -> (r: u64)
    ensures
        r == wrapped_add(x, n as int),
{
    let s: u128 = x as u128 + n as u128;
    (s % 0x1_0000_0000_0000_0000) as u64
}

/// Whether the fast path parses a packet: a header without contributing
/// sources or extension, at most one MTU, on a CPU with wide vectors.
pub open spec fn fast_path(caps: CPUCapabilities, d: Seq<u8>) -> bool {
    &&& 12 <= d.len() <= 1500
    &&& d[0] & 0x0F == 0
    &&& d[0] & 0x10 == 0
    &&& (caps.has_avx2 || caps.has_neon)
}

/// Parses and generates RTP packets and counts what it did.
pub struct SIMDRtpProcessor {
    cpu_capabilities: CPUCapabilities,
    stats: RtpProcessingStats,
}

/// A 16-bit big-endian number at `at`.
fn read_be16(d: &[u8], at: usize) -> (v: u16)
    requires
        at + 2 <= d@.len(),
    ensures
        v == be16(d@, at as int),
{
    (d[at] as u16) * 256 + d[at + 1] as u16
}

/// A 32-bit big-endian number at `at`.
fn read_be32(d: &[u8], at: usize) -> (v: u32)
    requires
        at + 4 <= d@.len(),
    ensures
        v == be32(d@, at as int),
{
    (d[at] as u32) * 16777216 + (d[at + 1] as u32) * 65536 + (d[at + 2] as u32) * 256 + d[at
        + 3] as u32
}

impl SIMDRtpProcessor {
    pub closed spec fn spec_stats(&self) -> RtpProcessingStats {
        self.stats
    }

    pub closed spec fn spec_capabilities(&self) -> CPUCapabilities {
        self.cpu_capabilities
    }

    /// A processor for a CPU with `cpu_capabilities`, with zeroed counters.
    pub fn new(cpu_capabilities: CPUCapabilities) -> (p: Self)
        ensures
            p.spec_capabilities() == cpu_capabilities,
            p.spec_stats() == (RtpProcessingStats {
                packets_processed: 0,
                packets_parsed_simd: 0,
                packets_parsed_scalar: 0,
                average_parse_time_ns: 0,
                total_bytes_processed: 0,
                parsing_errors: 0,
            }),
    {
        SIMDRtpProcessor {
            cpu_capabilities,
            stats: RtpProcessingStats {
                packets_processed: 0,
                packets_parsed_simd: 0,
                packets_parsed_scalar: 0,
                average_parse_time_ns: 0,
                total_bytes_processed: 0,
                parsing_errors: 0,
            },
        }
    }

    /// The counters.
    pub fn get_stats(&self) -> (s: RtpProcessingStats)
        ensures
            s == self.spec_stats(),
    {
        self.stats
    }

    /// Zeroes the counters.
    pub fn reset_stats(&mut self)
        ensures
            final(self).spec_capabilities() == old(self).spec_capabilities(),
            final(self).spec_stats() == (RtpProcessingStats {
                packets_processed: 0,
                packets_parsed_simd: 0,
                packets_parsed_scalar: 0,
                average_parse_time_ns: 0,
                total_bytes_processed: 0,
                parsing_errors: 0,
            }),
    {
        self.stats = RtpProcessingStats {
            packets_processed: 0,
            packets_parsed_simd: 0,
            packets_parsed_scalar: 0,
            average_parse_time_ns: 0,
            total_bytes_processed: 0,
            parsing_errors: 0,
        };
    }

    /// Reads the header and payload of a packet known to be well formed.
    fn read_packet(&self, data: &[u8], simd: bool) -> (p: FastRtpPacket)
        requires
            rtp_well_formed(data@),
        ensures
            fields_of(p) == rtp_fields(data@),
            p.parsed_with_simd == simd,
            p.parse_time_ns == 0,
    {
        let header_byte = data[0];
        let cc = header_byte & 0x0F;
        let extension = (header_byte & 0x10) != 0;
        let mut csrc_list = csrc_list_new();
        let mut offset: usize = 12;
        let mut i: u8 = 0;
        assert(cc <= 15) by (bit_vector)
            requires
                cc == header_byte & 0x0F,
        ;
        while i < cc
            invariant
                i <= cc <= 15,
                cc == data@[0] & 0x0F,
                offset == 12 + 4 * i,
                rtp_well_formed(data@),
                csrc_values(csrc_list) == csrc_words(data@, i as nat),
            decreases cc - i,
        {
            let csrc = read_be32(data, offset);
            csrc_list_push(&mut csrc_list, csrc);
            assert(csrc_words(data@, (i + 1) as nat) =~= csrc_words(data@, i as nat).push(csrc));
            offset = offset + 4;
            i = i + 1;
        }
        if extension {
            let words = read_be16(data, offset + 2) as usize;
            offset = offset + 4 + words * 4;
        }
        let (_, rest) = data.split_at(offset);
        let payload = PacketBytes::copy_of(rest);
        FastRtpPacket {
            version: (header_byte >> 6) & 0x03,
            padding: (header_byte & 0x20) != 0,
            extension,
            csrc_count: cc,
            marker: (data[1] & 0x80) != 0,
            payload_type: data[1] & 0x7F,
            sequence_number: read_be16(data, 2),
            timestamp: read_be32(data, 4),
            ssrc: read_be32(data, 8),
            csrc_list,
            payload,
            parse_time_ns: 0,
            parsed_with_simd: simd,
        }
    }

    /// Whether the fast path applies to `data`.
    fn can_use_simd_parsing(&self, data: &[u8]) -> (b: bool)
        ensures
            b == fast_path(self.spec_capabilities(), data@),
    {
        if data.len() < 12 || data.len() > 1500 {
            return false;
        }
        let header_byte = data[0];
        (header_byte & 0x0F) == 0 && (header_byte & 0x10) == 0 && (self.cpu_capabilities.has_avx2
            || self.cpu_capabilities.has_neon)
    }

    /// Parses an RTP packet. A packet that is not well formed is an invalid
    /// packet and counts a parsing error; a parsed one counts its bytes and
    /// the path that parsed it.
    pub fn parse_packet(&mut self, data: &[u8]) -> (r: Result<FastRtpPacket, DpstreamError>)
        ensures
            final(self).spec_capabilities() == old(self).spec_capabilities(),
            !rtp_well_formed(data@) ==> r == Err::<FastRtpPacket, DpstreamError>(
                DpstreamError::Streaming(StreamingError::InvalidPacket),
            ) && final(self).spec_stats() == (RtpProcessingStats {
                parsing_errors: wrapped_add(old(self).spec_stats().parsing_errors, 1),
                ..old(self).spec_stats()
            }),
            rtp_well_formed(data@) ==> (r matches Ok(p) && {
                &&& fields_of(p) == rtp_fields(data@)
                &&& p.parsed_with_simd == fast_path(old(self).spec_capabilities(), data@)
                &&& final(self).spec_stats().packets_processed == wrapped_add(
                    old(self).spec_stats().packets_processed,
                    1,
                )
                &&& final(self).spec_stats().total_bytes_processed == wrapped_add(
                    old(self).spec_stats().total_bytes_processed,
                    data@.len() as int,
                )
                &&& final(self).spec_stats().packets_parsed_simd == if p.parsed_with_simd {
                    wrapped_add(old(self).spec_stats().packets_parsed_simd, 1)
                } else {
                    old(self).spec_stats().packets_parsed_simd
                }
                &&& final(self).spec_stats().packets_parsed_scalar == if p.parsed_with_simd {
                    old(self).spec_stats().packets_parsed_scalar
                } else {
                    wrapped_add(old(self).spec_stats().packets_parsed_scalar, 1)
                }
                &&& final(self).spec_stats().parsing_errors == old(self).spec_stats().parsing_errors
            }),
    {
        let start_time = clock_now();
        if !self.check_well_formed(data) {
            self.stats.parsing_errors = add_wrapping(self.stats.parsing_errors, 1);
            return Err(DpstreamError::Streaming(StreamingError::InvalidPacket));
        }
        let simd = self.can_use_simd_parsing(data);
        let packet = self.read_packet(data, simd);
        if simd {
            self.stats.packets_parsed_simd = add_wrapping(self.stats.packets_parsed_simd, 1);
        } else {
            self.stats.packets_parsed_scalar = add_wrapping(self.stats.packets_parsed_scalar, 1);
        }
        let parse_time_ns = nanos_since(&start_time);
        self.stats.packets_processed = add_wrapping(self.stats.packets_processed, 1);
        self.stats.total_bytes_processed = add_wrapping(self.stats.total_bytes_processed, data.len() as u64);
        let sum: u128 = self.stats.average_parse_time_ns as u128 + parse_time_ns as u128;
        self.stats.average_parse_time_ns = (sum / 2) as u64;
        Ok(packet)
    }

    /// Whether `data` holds a well-formed packet.
    fn check_well_formed(&self, data: &[u8]) -> (b: bool)
        ensures
            b == rtp_well_formed(data@),
    {
        if data.len() < 12 {
            return false;
        }
        let cc = (data[0] & 0x0F) as usize;
        let after_csrc = 12 + 4 * cc;
        if data.len() < after_csrc {
            return false;
        }
        if (data[0] & 0x10) != 0 {
            if data.len() < after_csrc + 4 {
                return false;
            }
            let words = read_be16(data, after_csrc + 2) as usize;
            after_csrc + 4 + 4 * words <= data.len()
        } else {
            true
        }
    }
}

/// Packets parsed together.
pub struct RtpPacketBatch {
    packets: Vec<FastRtpPacket>,
    batch_size: usize,
}

/// The fields of the well-formed packets among `data`, in order.
pub open spec fn parsed_fields(data: Seq<Seq<u8>>) -> Seq<RtpFields>
    decreases data.len(),
{
    if data.len() == 0 {
        Seq::empty()
    } else if rtp_well_formed(data.last()) {
        parsed_fields(data.drop_last()).push(rtp_fields(data.last()))
    } else {
        parsed_fields(data.drop_last())
    }
}

/// The views of a list of byte slices.
pub open spec fn slice_views(data: Seq<&[u8]>) -> Seq<Seq<u8>> {
    data.map_values(|s: &[u8]| s@)
}

impl RtpPacketBatch {
    /// The fields of the packets in the batch.
    pub closed spec fn spec_fields(&self) -> Seq<RtpFields> {
        self.packets@.map_values(|p: FastRtpPacket| fields_of(p))
    }

    /// The number of packets offered.
    pub closed spec fn spec_size(&self) -> usize {
        self.batch_size
    }

    /// The parsed packets.
    pub fn packets(&self) -> (s: &[FastRtpPacket])
        ensures
            s@.map_values(|p: FastRtpPacket| fields_of(p)) == self.spec_fields(),
    {
        self.packets.as_slice()
    }

    /// The number of packets offered.
    pub fn size(&self) -> (n: usize)
        ensures
            n == self.spec_size(),
    {
        self.batch_size
    }

    /// The number of packets parsed.
    pub fn parsed_count(&self) -> (n: usize)
        ensures
            n == self.spec_fields().len(),
    {
        self.packets.len()
    }
}

impl SIMDRtpProcessor {
    /// Parses the packets of a batch, keeping those that are well formed in
    /// their order. With at least four packets on a CPU with wide vectors,
    /// each packet is parsed on its own fast or general path, and a packet
    /// shorter than a header is left out by the precondition, as that path
    /// cannot read it.
    pub fn parse_packet_batch(&mut self, packet_data: &[&[u8]]) -> (r: Result<RtpPacketBatch, DpstreamError>)
        requires
            (old(self).spec_capabilities().has_avx2 || old(self).spec_capabilities().has_neon)
                && packet_data@.len() >= 4 ==> forall|i: int|
                0 <= i < packet_data@.len() ==> (#[trigger] packet_data@[i])@.len() >= 12,
        ensures
            final(self).spec_capabilities() == old(self).spec_capabilities(),
            r matches Ok(b) && b.spec_size() == packet_data@.len() && b.spec_fields()
                == parsed_fields(slice_views(packet_data@)),
    {
        let ghost views = slice_views(packet_data@);
        let wide = (self.cpu_capabilities.has_avx2 || self.cpu_capabilities.has_neon)
            && packet_data.len() >= 4;
        let mut packets: Vec<FastRtpPacket> = Vec::new();
        let mut i: usize = 0;
        while i < packet_data.len()
            invariant
                i <= packet_data@.len(),
                views == slice_views(packet_data@),
                self.cpu_capabilities == old(self).cpu_capabilities,
                wide == ((self.cpu_capabilities.has_avx2 || self.cpu_capabilities.has_neon)
                    && packet_data@.len() >= 4),
                wide ==> forall|j: int|
                    0 <= j < packet_data@.len() ==> (#[trigger] packet_data@[j])@.len() >= 12,
                packets@.map_values(|p: FastRtpPacket| fields_of(p)) == parsed_fields(
                    views.take(i as int),
                ),
            decreases packet_data.len() - i,
        {
            let data = packet_data[i];
            let ghost before = packets@;
            proof {
                assert(views.take(i + 1).drop_last() =~= views.take(i as int));
                assert(views.take(i + 1).last() == data@);
            }
            if wide {
                if self.can_use_simd_parsing(data) {
                    let packet = self.read_packet(data, true);
                    self.stats.packets_parsed_simd = add_wrapping(self.stats.packets_parsed_simd, 1);
                    packets.push(packet);
                } else if self.check_well_formed(data) {
                    let packet = self.read_packet(data, false);
                    self.stats.packets_parsed_scalar = add_wrapping(self.stats.packets_parsed_scalar, 1);
                    packets.push(packet);
                } else {
                    self.stats.parsing_errors = add_wrapping(self.stats.parsing_errors, 1);
                }
            } else {
                match self.parse_packet(data) {
                    Ok(packet) => {
                        packets.push(packet);
                    },
                    Err(_) => {
                        self.stats.parsing_errors = add_wrapping(self.stats.parsing_errors, 1);
                    },
                }
            }
            assert(packets@.map_values(|p: FastRtpPacket| fields_of(p)) =~= parsed_fields(
                views.take(i + 1),
            ));
            i = i + 1;
        }
        assert(views.take(packet_data@.len() as int) =~= views);
        Ok(RtpPacketBatch { packets, batch_size: packet_data.len() })
    }
}

/// The first header byte: version, padding, extension and source count.
pub open spec fn header_byte(p: RtpFields) -> u8 {
    ((p.version << 6u8) | (if p.padding { 0x20u8 } else { 0u8 }) | (if p.extension {
        0x10u8
    } else {
        0u8
    }) | p.csrc_count) as u8
}

/// The second header byte: marker and payload type.
pub open spec fn marker_byte(p: RtpFields) -> u8 {
    ((if p.marker { 0x80u8 } else { 0u8 }) | p.payload_type) as u8
}

/// The big-endian bytes of a 16-bit number.
pub open spec fn be16_bytes(v: u16) -> Seq<u8> {
    seq![(v / 256) as u8, (v % 256) as u8]
}

/// The big-endian bytes of a 32-bit number.
pub open spec fn be32_bytes(v: u32) -> Seq<u8> {
    seq![(v / 16777216) as u8, ((v / 65536) % 256) as u8, ((v / 256) % 256) as u8, (v % 256) as u8]
}

/// The contributing-source area of a generated header: the announced number
/// of words, each the listed identifier when it is written, else zero.
pub open spec fn csrc_area(p: RtpFields, write_list: bool) -> Seq<u8>
    decreases p.csrc_count,
{
    if p.csrc_count == 0 {
        Seq::empty()
    } else {
        let k = (p.csrc_count - 1) as int;
        let prev = RtpFields { csrc_count: (p.csrc_count - 1) as u8, ..p };
        csrc_area(prev, write_list) + if write_list && k < p.csrcs.len() {
            be32_bytes(p.csrcs[k])
        } else {
            seq![0u8, 0u8, 0u8, 0u8]
        }
    }
}

/// The bytes generated for a packet: the fixed header, the source area and
/// the payload.
pub open spec fn rtp_bytes(p: RtpFields, write_list: bool) -> Seq<u8> {
    seq![header_byte(p), marker_byte(p)] + be16_bytes(p.sequence_number) + be32_bytes(p.timestamp)
        + be32_bytes(p.ssrc) + csrc_area(p, write_list) + p.payload
}

/// The big-endian bytes of a 16-bit number.
fn push_be16(out: &mut Vec<u8>, v: u16)
    ensures
        final(out)@ == old(out)@ + be16_bytes(v),
{
    out.push((v / 256) as u8);
    out.push((v % 256) as u8);
    assert(final(out)@ =~= old(out)@ + be16_bytes(v));
}

/// The big-endian bytes of a 32-bit number.
fn push_be32(out: &mut Vec<u8>, v: u32)
    ensures
        final(out)@ == old(out)@ + be32_bytes(v),
{
    out.push((v / 16777216) as u8);
    out.push(((v / 65536) % 256) as u8);
    out.push(((v / 256) % 256) as u8);
    out.push((v % 256) as u8);
    assert(final(out)@ =~= old(out)@ + be32_bytes(v));
}

impl SIMDRtpProcessor {
    /// The bytes of `packet`: the header from its fields, then as many
    /// source words as `csrc_count` announces, then the payload. On the wide
    /// vector path (AVX2 and no sources announced) the list is not written;
    /// otherwise the listed sources fill the source area, and a list longer
    /// than the area and the payload together is left out by the
    /// precondition.
    pub fn generate_packet(&mut self, packet: &FastRtpPacket) -> (r: Result<PacketBytes, DpstreamError>)
        requires
            (old(self).spec_capabilities().has_avx2 && packet.csrc_count == 0) || 4
                * csrc_values(packet.csrc_list).len() <= 4 * packet.csrc_count + payload_bytes(
                packet.payload,
            ).len(),
            12 + 4 * packet.csrc_count + payload_bytes(packet.payload).len() <= usize::MAX,
        ensures
            *final(self) == *old(self),
            r matches Ok(bytes) && payload_bytes(bytes) == rtp_bytes(
                fields_of(*packet),
                !(old(self).spec_capabilities().has_avx2 && packet.csrc_count == 0),
            ),
    {
        let ghost f = fields_of(*packet);
        let write_list = !(self.cpu_capabilities.has_avx2 && packet.csrc_count == 0);
        let header = ((packet.version << 6u8) | (if packet.padding { 0x20u8 } else { 0u8 }) | (
        if packet.extension {
            0x10u8
        } else {
            0u8
        }) | packet.csrc_count) as u8;
        let marker_and_pt = ((if packet.marker { 0x80u8 } else { 0u8 }) | packet.payload_type) as u8;
        let mut data: Vec<u8> = Vec::new();
        data.push(header);
        data.push(marker_and_pt);
        push_be16(&mut data, packet.sequence_number);
        push_be32(&mut data, packet.timestamp);
        push_be32(&mut data, packet.ssrc);
        let ghost fixed = data@;
        assert(fixed =~= seq![header_byte(f), marker_byte(f)] + be16_bytes(f.sequence_number)
            + be32_bytes(f.timestamp) + be32_bytes(f.ssrc));
        let list = csrc_list_slice(&packet.csrc_list);
        let mut k: u8 = 0;
        while k < packet.csrc_count
            invariant
                k <= packet.csrc_count,
                f == fields_of(*packet),
                list@ == f.csrcs,
                data@ == fixed + csrc_area(RtpFields { csrc_count: k, ..f }, write_list),
            decreases packet.csrc_count - k,
        {
            let ghost before = data@;
            if write_list && (k as usize) < list.len() {
                push_be32(&mut data, list[k as usize]);
            } else {
                data.push(0);
                data.push(0);
                data.push(0);
                data.push(0);
            }
            proof {
                let g = RtpFields { csrc_count: (k + 1) as u8, ..f };
                assert(RtpFields { csrc_count: (g.csrc_count - 1) as u8, ..g } == RtpFields {
                    csrc_count: k,
                    ..f
                });
                assert(data@ =~= fixed + csrc_area(g, write_list));
            }
            k = k + 1;
        }
        assert(RtpFields { csrc_count: packet.csrc_count, ..f } == f);
        let payload = packet.payload.slice();
        let ghost with_area = data@;
        let mut i: usize = 0;
        while i < payload.len()
            invariant
                i <= payload@.len(),
                data@ == with_area + payload@.take(i as int),
            decreases payload.len() - i,
        {
            data.push(payload[i]);
            assert(data@ =~= with_area + payload@.take(i + 1));
            i = i + 1;
        }
        assert(payload@.take(payload@.len() as int) =~= payload@);
        assert(data@ =~= rtp_bytes(f, write_list));
        Ok(PacketBytes::of_vec(data))
    }
}

/// The bits of the first two header bytes read back as they were written.
proof fn lemma_header_bits(v: u8, pa: u8, ex: u8, cc: u8, m: u8, pt: u8)
    requires
        v < 4,
        pa == 0 || pa == 0x20,
        ex == 0 || ex == 0x10,
        cc < 16,
        m == 0 || m == 0x80,
        pt < 128,
    ensures
        (((v << 6u8) | pa | ex | cc) >> 6u8) & 0x03 == v,
        (((v << 6u8) | pa | ex | cc) & 0x20 != 0) == (pa == 0x20),
        (((v << 6u8) | pa | ex | cc) & 0x10 != 0) == (ex == 0x10),
        ((v << 6u8) | pa | ex | cc) & 0x0F == cc,
        ((m | pt) & 0x80 != 0) == (m == 0x80),
        (m | pt) & 0x7F == pt,
{
    assert((((v << 6u8) | pa | ex | cc) >> 6u8) & 0x03 == v) by (bit_vector)
        requires
            v < 4,
            pa == 0 || pa == 0x20,
            ex == 0 || ex == 0x10,
            cc < 16,
    ;
    assert((((v << 6u8) | pa | ex | cc) & 0x20 != 0) == (pa == 0x20)) by (bit_vector)
        requires
            v < 4,
            pa == 0 || pa == 0x20,
            ex == 0 || ex == 0x10,
            cc < 16,
    ;
    assert((((v << 6u8) | pa | ex | cc) & 0x10 != 0) == (ex == 0x10)) by (bit_vector)
        requires
            v < 4,
            pa == 0 || pa == 0x20,
            ex == 0 || ex == 0x10,
            cc < 16,
    ;
    assert(((v << 6u8) | pa | ex | cc) & 0x0F == cc) by (bit_vector)
        requires
            v < 4,
            pa == 0 || pa == 0x20,
            ex == 0 || ex == 0x10,
            cc < 16,
    ;
    assert(((m | pt) & 0x80 != 0) == (m == 0x80)) by (bit_vector)
        requires
            m == 0 || m == 0x80,
            pt < 128,
    ;
    assert((m | pt) & 0x7F == pt) by (bit_vector)
        requires
            m == 0 || m == 0x80,
            pt < 128,
    ;
}

/// Big-endian bytes read back as the number they came from.
proof fn lemma_be_round_trip(v16: u16, v32: u32, d: Seq<u8>, at: int)
    ensures
        0 <= at && at + 2 <= d.len() && d.subrange(at, at + 2) == be16_bytes(v16) ==> be16(d, at)
            == v16,
        0 <= at && at + 4 <= d.len() && d.subrange(at, at + 4) == be32_bytes(v32) ==> be32(d, at)
            == v32,
{
    if 0 <= at && at + 2 <= d.len() && d.subrange(at, at + 2) == be16_bytes(v16) {
        assert(d[at] == d.subrange(at, at + 2)[0]);
        assert(d[at + 1] == d.subrange(at, at + 2)[1]);
    }
    if 0 <= at && at + 4 <= d.len() && d.subrange(at, at + 4) == be32_bytes(v32) {
        assert(d[at] == d.subrange(at, at + 4)[0]);
        assert(d[at + 1] == d.subrange(at, at + 4)[1]);
        assert(d[at + 2] == d.subrange(at, at + 4)[2]);
        assert(d[at + 3] == d.subrange(at, at + 4)[3]);
    }
}

/// The source area written from a full list holds the list's words.
proof fn lemma_csrc_area(p: RtpFields, i: int)
    requires
        p.csrcs.len() >= p.csrc_count,
        0 <= i < p.csrc_count,
    ensures
        csrc_area(p, true).len() == 4 * p.csrc_count,
        csrc_area(p, true).subrange(4 * i, 4 * i + 4) == be32_bytes(p.csrcs[i]),
    decreases p.csrc_count,
{
    let prev = RtpFields { csrc_count: (p.csrc_count - 1) as u8, ..p };
    lemma_csrc_area_len(prev);
    if i < p.csrc_count - 1 {
        lemma_csrc_area(prev, i);
        assert(csrc_area(p, true).subrange(4 * i, 4 * i + 4) =~= csrc_area(prev, true).subrange(
            4 * i,
            4 * i + 4,
        ));
    } else {
        assert(csrc_area(p, true).subrange(4 * i, 4 * i + 4) =~= be32_bytes(p.csrcs[i]));
    }
}

/// The source area has four bytes per announced source.
proof fn lemma_csrc_area_len(p: RtpFields)
    ensures
        csrc_area(p, true).len() == 4 * p.csrc_count,
    decreases p.csrc_count,
{
    if p.csrc_count > 0 {
        lemma_csrc_area_len(RtpFields { csrc_count: (p.csrc_count - 1) as u8, ..p });
    }
}

/// Parsing the bytes generated for a packet gives the packet back: for a
/// packet of version 0 to 3, a payload type below 128, no extension and as
/// many listed sources as it announces (at most fifteen), written whenever
/// there are any.
pub proof fn lemma_rtp_round_trip(p: RtpFields, write_list: bool)
    requires
        p.version < 4,
        p.payload_type < 128,
        p.csrc_count <= 15,
        p.csrcs.len() == p.csrc_count,
        !p.extension,
        write_list || p.csrc_count == 0,
    ensures
        rtp_well_formed(rtp_bytes(p, write_list)),
        rtp_fields(rtp_bytes(p, write_list)) == p,
{
    let d = rtp_bytes(p, write_list);
    let cc = p.csrc_count as int;
    lemma_header_bits(
        p.version,
        if p.padding { 0x20u8 } else { 0u8 },
        0u8,
        p.csrc_count,
        if p.marker { 0x80u8 } else { 0u8 },
        p.payload_type,
    );
    lemma_csrc_area_len(p);
    if cc == 0 {
        assert(csrc_area(p, write_list) =~= Seq::<u8>::empty());
    }
    assert(csrc_area(p, write_list) == csrc_area(p, true));
    assert(d[0] == header_byte(p));
    assert(d[1] == marker_byte(p));
    assert(d.len() == 12 + 4 * cc + p.payload.len());
    lemma_be_round_trip(p.sequence_number, 0, d, 2);
    assert(d.subrange(2, 4) =~= be16_bytes(p.sequence_number));
    lemma_be_round_trip(0, p.timestamp, d, 4);
    assert(d.subrange(4, 8) =~= be32_bytes(p.timestamp));
    lemma_be_round_trip(0, p.ssrc, d, 8);
    assert(d.subrange(8, 12) =~= be32_bytes(p.ssrc));
    assert(be16(d, 2) == p.sequence_number);
    assert(be32(d, 4) == p.timestamp);
    assert(be32(d, 8) == p.ssrc);
    assert forall|i: int| 0 <= i < cc implies #[trigger] csrc_words(d, cc as nat)[i] == p.csrcs[i] by {
        lemma_csrc_area(p, i);
        assert(d.subrange(12 + 4 * i, 12 + 4 * i + 4) =~= csrc_area(p, true).subrange(
            4 * i,
            4 * i + 4,
        ));
        lemma_be_round_trip(0, p.csrcs[i], d, 12 + 4 * i);
    }
    assert(csrc_words(d, cc as nat) =~= p.csrcs);
    assert(payload_offset(d) == 12 + 4 * cc);
    assert(d.subrange(12 + 4 * cc, d.len() as int) =~= p.payload);
    assert(rtp_fields(d) =~= p);
}

} // verus!
