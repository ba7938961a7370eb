use dpstream::streaming::compiler_optimization::{
    bolt_arguments, generate_optimized_flags, BoltConfig, CompilerFlagOptimizer, LtoConfig,
    OptimizationLevel,
};
use dpstream::streaming::error_recovery::{
    assess_user_impact, record_recovery_outcome, severity_level, triggers_recovery,
    CircuitBreaker, CircuitBreakerConfig, CircuitBreakerState, ErrorSeverity, ErrorType,
    RecoveryCounters, RecoveryOutcome, UserImpactLevel,
};
use dpstream::streaming::gpu_acceleration::{
    detect_gpu_capabilities, GpuBackend, GpuConfig, OpenCLProcessor, VulkanProcessor,
};
use dpstream::streaming::lock_free::{
    next_power_of_two, LockFreeMemoryPool, LockFreeRingBuffer, LockFreeSessionRegistry,
    RegistryError, RingBufferError,
};
use dpstream::streaming::optimization::PriorityFrameQueue;
use dpstream::streaming::simd_ops::{AlignedBuffer, SIMDError, SIMDVideoProcessor};
use std::sync::Arc;

#[test]
fn test_compiler_flag_optimizer() {
    let optimizer = CompilerFlagOptimizer::new();
    let flags = optimizer.generate_rustflags();

    assert!(flags.contains("-Copt-level=3"));
    assert!(flags.contains("-Ctarget-cpu=native"));
    assert!(flags.contains("-Clto=fat"));
}

#[test]
fn test_optimization_level_setting() {
    let mut optimizer = CompilerFlagOptimizer::new();
    optimizer.set_optimization_level(OptimizationLevel::Size);

    let flags = optimizer.generate_rustflags();
    assert!(flags.contains("-Copt-level=s"));
}

#[test]
fn rustflags_exact_order_with_custom_flags() {
    let mut optimizer = CompilerFlagOptimizer::new();
    optimizer.set_optimization_level(OptimizationLevel::Native);
    optimizer.set_lto_config(LtoConfig::ThinLocal);
    optimizer.add_custom_flag("-Cdebuginfo=0".to_string());
    let flags = optimizer.generate_rustflags();
    let features = CompilerFlagOptimizer::detect_target_features().join(",");
    let expected = format!(
        "-Copt-level=3 -Cllvm-args=-O3 -Ctarget-cpu=native -Ctarget-features={} -Clto=thin-local -Ccodegen-units=1 -Cpanic=abort -Cllvm-args=-enable-load-pre -Cllvm-args=-enable-block-placement -Cllvm-args=-enable-loop-vectorization -Cllvm-args=-enable-slp-vectorization -Cllvm-args=-inline-threshold=1000 -Cdebuginfo=0",
        features
    );
    assert_eq!(flags, expected);
}

#[test]
fn target_features_by_architecture() {
    assert_eq!(
        CompilerFlagOptimizer::target_features_for(false),
        vec!["+sse4.2", "+avx", "+avx2", "+fma"]
    );
    assert_eq!(
        CompilerFlagOptimizer::target_features_for(true),
        vec!["+sse4.2", "+avx", "+avx2", "+fma", "+bmi1", "+bmi2", "+lzcnt", "+popcnt"]
    );
    assert_eq!(CompilerFlagOptimizer::detect_target_cpu(), "native");
}

#[test]
fn test_gpu_config_default() {
    let config = GpuConfig::default();
    assert_eq!(config.preferred_backend, GpuBackend::Vulkan);
    assert!(config.enable_async_compute);
    assert_eq!(config.memory_pool_size, 512 * 1024 * 1024);
}

#[test]
fn test_gpu_capabilities_detection() {
    let capabilities = detect_gpu_capabilities();
    assert!(capabilities.is_ok());

    let caps = capabilities.unwrap();
    assert!(caps.backends.is_empty());
}

#[test]
fn gpu_backends_report_their_capabilities() {
    let vulkan = VulkanProcessor::new().unwrap();
    let caps = vulkan.get_capabilities();
    assert_eq!(caps.backends, vec![GpuBackend::Vulkan]);
    assert_eq!(caps.memory_size, 4 * 1024 * 1024 * 1024);
    assert_eq!(vulkan.backend_type(), GpuBackend::Vulkan);
    let opencl = OpenCLProcessor::new().unwrap();
    assert_eq!(opencl.get_capabilities().compute_units, 8);
    assert_eq!(opencl.backend_type(), GpuBackend::OpenCL);
}

#[test]
fn test_priority_queue() {
    let mut queue = PriorityFrameQueue::new(3);

    queue.push("low1", 1);
    queue.push("normal1", 4);
    queue.push("high1", 7);

    assert_eq!(queue.pop(), Some("high1"));
    assert_eq!(queue.pop(), Some("normal1"));
    assert_eq!(queue.pop(), Some("low1"));
}

#[test]
fn priority_queue_drops_oldest_lowest_when_full() {
    let mut queue = PriorityFrameQueue::new(2);
    queue.push("high1", 9);
    queue.push("low1", 0);
    queue.push("normal1", 3);
    assert_eq!(queue.dropped_count(), 1);
    assert_eq!(queue.len(), 2);
    assert_eq!(queue.pop(), Some("high1"));
    assert_eq!(queue.pop(), Some("normal1"));
    assert_eq!(queue.pop(), None);
    assert!(queue.is_empty());
}

#[test]
fn test_cpu_capabilities_detection() {
    let processor = SIMDVideoProcessor::new();
    let caps = processor.get_capabilities();
    println!(
        "AVX2: {}, AVX-512: {}, FMA: {}",
        caps.has_avx2, caps.has_avx512, caps.has_fma
    );
    assert_eq!(caps.cache_line_size, 64);
}

#[test]
fn test_aligned_buffer() {
    let mut buffer = AlignedBuffer::new(1024, 64);
    let slice = buffer.as_mut_slice();

    let addr = slice.as_ptr() as usize;
    assert_eq!(addr % 64, 0);

    slice[0] = 255;
    assert_eq!(slice[0], 255);
}

#[test]
fn aligned_buffer_slices_have_the_requested_size() {
    let buffer = AlignedBuffer::new(100, 32);
    let slice = buffer.as_slice();
    assert_eq!(slice.len(), 100);
    assert_eq!(slice.as_ptr() as usize % 32, 0);
    assert!(slice.iter().all(|&b| b == 0));
}

#[test]
fn test_yuv_to_rgb_conversion() {
    let mut processor = SIMDVideoProcessor::new();

    let width = 64;
    let height = 64;
    let mut yuv_data = vec![0u8; width * height * 3 / 2];
    let mut rgb_data = vec![0u8; width * height * 3];

    for i in 0..width * height {
        yuv_data[i] = (i % 256) as u8;
    }
    for i in 0..width * height / 4 {
        yuv_data[width * height + i] = 128;
        yuv_data[width * height + width * height / 4 + i] = 128;
    }

    let result = processor.yuv420_to_rgb24(&yuv_data, &mut rgb_data, width, height);
    assert!(result.is_ok());

    assert!(rgb_data.iter().any(|&x| x != 0));
}

#[test]
fn yuv_conversion_exact_values() {
    let mut processor = SIMDVideoProcessor::new();
    // 2x2 frame: luma 16, 235, 128, 0; chroma U = 128, V = 255.
    let yuv = vec![16u8, 235, 128, 0, 128, 255];
    let mut rgb = vec![7u8; 13];
    processor.yuv420_to_rgb24(&yuv, &mut rgb, 2, 2).unwrap();
    // Pixel 0: y=16, u=0, v=127: r=(4768+51943+128)>>8=222, g=(4768-26416+128)>>8=-85->0, b=(4768+128)>>8=19
    assert_eq!(&rgb[0..3], &[222, 0, 19]);
    // Pixel 1: y=235: r=(70030+51943+128)>>8=476->255, g=(70030-26416+128)>>8=170, b=(70030+128)>>8=274->255
    assert_eq!(&rgb[3..6], &[255, 170, 255]);
    // The byte past the image is untouched.
    assert_eq!(rgb[12], 7);
}

#[test]
fn yuv_conversion_reports_small_buffers() {
    let mut processor = SIMDVideoProcessor::new();
    let mut rgb = vec![0u8; 12];
    assert_eq!(
        processor.yuv420_to_rgb24(&[0u8; 5], &mut rgb, 2, 2),
        Err(SIMDError::InvalidInputSize)
    );
    let mut small = vec![0u8; 11];
    assert_eq!(
        processor.yuv420_to_rgb24(&[0u8; 6], &mut small, 2, 2),
        Err(SIMDError::InvalidOutputSize)
    );
    // A single pixel wants one byte of input and three of output.
    let mut pixel = vec![7u8; 3];
    assert_eq!(
        processor.yuv420_to_rgb24(&[], &mut pixel, 1, 1),
        Err(SIMDError::InvalidInputSize)
    );
    assert_eq!(pixel, vec![7u8; 3]);
    let mut short = vec![7u8; 2];
    assert_eq!(
        processor.yuv420_to_rgb24(&[0u8; 1], &mut short, 1, 1),
        Err(SIMDError::InvalidOutputSize)
    );
    assert_eq!(short, vec![7u8; 2]);
}

#[test]
fn scale_image_identity_and_upscale() {
    let mut processor = SIMDVideoProcessor::new();
    let src = vec![10u8, 20, 30, 40];
    let mut dst = vec![0u8; 4];
    processor.scale_image(&src, &mut dst, 2, 2, 2, 2).unwrap();
    // x_ratio = 65537: x=1 maps to source 1 with fraction 0.
    assert_eq!(dst, vec![10, 20, 30, 40]);

    let src = vec![0u8, 255];
    let mut dst = vec![0u8; 4];
    processor.scale_image(&src, &mut dst, 2, 1, 4, 1).unwrap();
    // ratio = 2*65536/4+1 = 32769; x=1: 32769 -> coord 0, frac 128 -> (255*128*256)>>16 = 127
    assert_eq!(dst, vec![0, 127, 255, 255]);
}

#[test]
fn test_lock_free_ring_buffer() {
    let mut buffer = LockFreeRingBuffer::new(16);

    assert!(buffer.send("message1".to_string()).is_ok());
    assert!(buffer.send("message2".to_string()).is_ok());

    let received1 = buffer.recv().unwrap();
    let received2 = buffer.recv().unwrap();

    assert_eq!(received1, "message1");
    assert_eq!(received2, "message2");

    assert!(matches!(buffer.recv(), Err(RingBufferError::BufferEmpty)));
}

#[test]
fn ring_buffer_keeps_one_slot_free_and_counts() {
    let mut buffer = LockFreeRingBuffer::new(3);
    assert_eq!(next_power_of_two(3), 4);
    assert!(buffer.send(1u32).is_ok());
    assert!(buffer.send(2u32).is_ok());
    assert!(buffer.send(3u32).is_ok());
    assert_eq!(buffer.send(4u32), Err(RingBufferError::BufferFull));
    assert_eq!(buffer.recv(), Ok(1));
    assert!(buffer.send(5u32).is_ok());
    assert_eq!(buffer.recv(), Ok(2));
    assert_eq!(buffer.recv(), Ok(3));
    assert_eq!(buffer.recv(), Ok(5));
    assert_eq!(buffer.recv(), Err(RingBufferError::BufferEmpty));
    let stats = buffer.get_stats();
    assert_eq!(stats.messages_sent, 4);
    assert_eq!(stats.messages_received, 4);
    assert_eq!(stats.buffer_full_events, 1);
    assert_eq!(stats.buffer_empty_events, 1);
    assert_eq!(stats.peak_utilization, 3);
}

#[test]
fn test_lock_free_memory_pool() {
    let mut pool = LockFreeMemoryPool::new(10);

    let item1 = pool.allocate("test1".to_string());
    assert!(item1.is_some());

    let item2 = pool.allocate("test2".to_string());
    assert!(item2.is_some());

    assert_eq!(*item1.as_ref().unwrap().get(), "test1");
    assert_eq!(*item2.as_ref().unwrap().get(), "test2");

    pool.deallocate(item1.unwrap());
    pool.deallocate(item2.unwrap());

    let (allocated, total, allocations) = pool.stats();
    assert_eq!(allocated, 0);
    assert_eq!(total, 10);
    assert_eq!(allocations, 2);
}

#[test]
fn memory_pool_exhaustion() {
    let mut pool = LockFreeMemoryPool::new(1);
    let first = pool.allocate(1u8);
    assert!(first.is_some());
    assert!(pool.allocate(2u8).is_none());
    pool.deallocate(first.unwrap());
    assert!(pool.allocate(3u8).is_some());
    assert_eq!(pool.stats(), (1, 1, 2));
}

#[test]
fn test_lock_free_session_registry() {
    let mut registry = LockFreeSessionRegistry::new();
    let session_id = uuid::Uuid::new_v4().as_u128();
    let session_data = Arc::new("test_session".to_string());

    assert!(registry.insert(session_id, session_data.clone()).is_ok());
    assert_eq!(registry.len(), 1);

    let retrieved = registry.get(&session_id);
    assert!(retrieved.is_some());
    assert_eq!(*retrieved.unwrap(), "test_session");

    let removed = registry.remove(&session_id);
    assert!(removed.is_some());
    assert_eq!(registry.len(), 0);
}

#[test]
fn registry_rejects_duplicates_and_counts() {
    let mut registry = LockFreeSessionRegistry::new();
    assert!(registry.insert(7, Arc::new(1u32)).is_ok());
    assert_eq!(
        registry.insert(7, Arc::new(2u32)),
        Err(RegistryError::SessionAlreadyExists(7))
    );
    assert_eq!(*registry.get(&7).unwrap(), 2);
    assert!(registry.insert(8, Arc::new(3u32)).is_ok());
    assert!(registry.remove(&9).is_none());
    assert!(registry.remove(&7).is_some());
    let stats = registry.get_stats();
    assert_eq!(stats.total_insertions, 2);
    assert_eq!(stats.total_removals, 1);
    assert_eq!(stats.lookup_operations, 1);
    assert_eq!(stats.peak_concurrent_sessions, 2);
    assert!(!registry.is_empty());
}

#[test]
fn registry_lists_every_session_once() {
    let mut registry = LockFreeSessionRegistry::new();
    assert!(registry.get_all_sessions().is_empty());
    registry.insert(1, Arc::new("a")).unwrap();
    registry.insert(2, Arc::new("b")).unwrap();
    registry.insert(3, Arc::new("c")).unwrap();
    registry.remove(&2);
    // Back after a removal, and replaced under an id that is present.
    registry.insert(2, Arc::new("d")).unwrap();
    assert!(registry.insert(1, Arc::new("e")).is_err());
    let mut all: Vec<(u128, &str)> =
        registry.get_all_sessions().into_iter().map(|(id, s)| (id, *s)).collect();
    all.sort();
    assert_eq!(all, vec![(1, "e"), (2, "d"), (3, "c")]);
}

#[test]
fn test_error_correlation_creation() {
    let impact = assess_user_impact(ErrorType::VideoError, ErrorSeverity::Medium);
    assert_eq!(impact, UserImpactLevel::Moderate);
}

#[test]
fn user_impact_table() {
    assert_eq!(
        assess_user_impact(ErrorType::Unknown, ErrorSeverity::Critical),
        UserImpactLevel::Complete
    );
    assert_eq!(
        assess_user_impact(ErrorType::NetworkError, ErrorSeverity::High),
        UserImpactLevel::Severe
    );
    assert_eq!(
        assess_user_impact(ErrorType::IOError, ErrorSeverity::High),
        UserImpactLevel::Moderate
    );
    assert_eq!(
        assess_user_impact(ErrorType::IOError, ErrorSeverity::Medium),
        UserImpactLevel::Minimal
    );
    assert_eq!(
        assess_user_impact(ErrorType::AudioError, ErrorSeverity::Low),
        UserImpactLevel::Unaffected
    );
    assert_eq!(severity_level(ErrorSeverity::High), 2);
    assert!(triggers_recovery(ErrorSeverity::Critical));
    assert!(!triggers_recovery(ErrorSeverity::Medium));
}

#[test]
fn circuit_breaker_opens_half_opens_and_closes() {
    let config = CircuitBreakerConfig {
        failure_threshold: 3,
        recovery_timeout_secs: 1,
        success_threshold: 2,
        half_open_max_requests: 1,
        request_timeout_secs: 5,
    };
    let mut breaker = CircuitBreaker::new(config);
    assert_eq!(breaker.get_state(), CircuitBreakerState::Closed);
    assert!(breaker.is_request_allowed());

    breaker.record_failure_at(100);
    breaker.record_failure_at(100);
    assert_eq!(breaker.get_state(), CircuitBreakerState::Closed);
    breaker.record_failure_at(100);
    assert_eq!(breaker.get_state(), CircuitBreakerState::Open);
    assert!(!breaker.is_request_allowed());

    // Too early: still open.
    breaker.record_success_at(100);
    assert_eq!(breaker.get_state(), CircuitBreakerState::Open);
    // After the recovery timeout the first success half-opens it.
    breaker.record_success_at(102);
    assert_eq!(breaker.get_state(), CircuitBreakerState::HalfOpen);
    breaker.record_success_at(103);
    assert_eq!(breaker.get_state(), CircuitBreakerState::Closed);
    assert!(breaker.is_request_allowed());
    assert_eq!(breaker.get_metrics().state_transitions, 3);
    assert_eq!(breaker.get_metrics().total_requests, 6);
}

#[test]
fn circuit_breaker_reopens_on_half_open_failure() {
    let mut breaker = CircuitBreaker::new(CircuitBreakerConfig::default());
    for _ in 0..5 {
        breaker.record_failure_at(10);
    }
    assert_eq!(breaker.get_state(), CircuitBreakerState::Open);
    breaker.record_success_at(40);
    assert_eq!(breaker.get_state(), CircuitBreakerState::HalfOpen);
    breaker.record_failure_at(41);
    assert_eq!(breaker.get_state(), CircuitBreakerState::Open);
}

#[test]
fn recovery_outcomes_stop_or_continue() {
    let mut counters = RecoveryCounters {
        recovery_attempts: 0,
        successful_recoveries: 0,
        failed_recoveries: 0,
    };
    assert!(!record_recovery_outcome(&mut counters, RecoveryOutcome::RetryableFailure));
    assert!(!record_recovery_outcome(&mut counters, RecoveryOutcome::InProgress));
    assert!(record_recovery_outcome(&mut counters, RecoveryOutcome::Success));
    assert!(record_recovery_outcome(&mut counters, RecoveryOutcome::PermanentFailure));
    assert_eq!(counters.recovery_attempts, 4);
    assert_eq!(counters.successful_recoveries, 1);
    assert_eq!(counters.failed_recoveries, 2);
}

use dpstream::streaming::memory_optimization::{AllocationError, StreamingAllocator};

#[test]
fn test_video_frame_allocation() {
    let mut allocator = StreamingAllocator::new();

    let frame = allocator.allocate_video_frame(1920, 1080).unwrap();
    let data = allocator.frame_data_mut(&frame);
    assert_eq!(data.len(), 1920 * 1080 * 4);

    let (width, height, _) = allocator.frame_metadata(&frame);
    assert_eq!(width, 1920);
    assert_eq!(height, 1080);

    allocator.release_video_frame(frame);

    let stats = allocator.get_stats();
    assert_eq!(stats.total_allocations, 1);
    assert_eq!(stats.total_deallocations, 1);
}

#[test]
fn test_audio_buffer_allocation() {
    let mut allocator = StreamingAllocator::new();

    let buffer = allocator.allocate_audio_buffer(1024, 48000, 2).unwrap();
    assert_eq!(allocator.audio_sample_count(&buffer), 1024);

    let (sample_rate, channels, _) = allocator.audio_metadata(&buffer);
    assert_eq!(sample_rate, 48000);
    assert_eq!(channels, 2);

    allocator.release_audio_buffer(buffer);

    let stats = allocator.get_stats();
    assert_eq!(stats.total_allocations, 1);
    assert_eq!(stats.total_deallocations, 1);
    assert_eq!(stats.bytes_allocated, 4096);
    assert_eq!(stats.bytes_deallocated, 4096);
}

#[test]
fn test_packet_allocation() {
    let mut allocator = StreamingAllocator::new();

    let packet = allocator.allocate_packet(1500, 96).unwrap();
    let data = allocator.packet_data_mut(&packet);
    assert_eq!(data.len(), 1500);
    for (i, byte) in data.iter_mut().enumerate() {
        *byte = (i % 256) as u8;
    }

    let (packet_type, _, _) = allocator.packet_metadata(&packet);
    assert_eq!(packet_type, 96);

    allocator.release_packet(packet);

    let stats = allocator.get_stats();
    assert_eq!(stats.total_allocations, 1);
    assert_eq!(stats.total_deallocations, 1);
}

#[test]
fn test_pool_exhaustion() {
    let mut allocator = StreamingAllocator::new();

    let mut frames = Vec::new();
    for _ in 0..16 {
        frames.push(allocator.allocate_video_frame(1920, 1080).unwrap());
    }

    assert!(matches!(
        allocator.allocate_video_frame(1920, 1080),
        Err(AllocationError::PoolExhausted)
    ));

    allocator.release_video_frame(frames.pop().unwrap());

    assert!(allocator.allocate_video_frame(1920, 1080).is_ok());
    let stats = allocator.get_stats();
    assert_eq!(stats.pool_misses, 1);
    assert_eq!(stats.pool_hits, 17);
}

#[test]
fn test_size_limits() {
    let mut allocator = StreamingAllocator::new();

    assert!(matches!(
        allocator.allocate_video_frame(8000, 8000),
        Err(AllocationError::SizeTooLarge(_))
    ));

    assert!(matches!(
        allocator.allocate_audio_buffer(100000, 48000, 2),
        Err(AllocationError::SizeTooLarge(_))
    ));

    assert!(matches!(
        allocator.allocate_packet(10000, 96),
        Err(AllocationError::SizeTooLarge(_))
    ));
}

use dpstream::streaming::rtp_optimization::{
    csrc_list_of, empty_csrc_list, FastRtpPacket, PacketBytes, SIMDRtpProcessor,
};

fn detected_caps() -> dpstream::streaming::simd_ops::CPUCapabilities {
    SIMDVideoProcessor::detect_cpu_capabilities()
}

#[test]
fn test_simd_rtp_processor_creation() {
    let processor = SIMDRtpProcessor::new(detected_caps());
    assert_eq!(processor.get_stats().packets_processed, 0);
}

#[test]
fn test_rtp_packet_parsing() {
    let mut processor = SIMDRtpProcessor::new(detected_caps());

    let mut packet_data = vec![0u8; 20];
    packet_data[0] = 0x80;
    packet_data[1] = 0x60;
    packet_data[2] = 0x00;
    packet_data[3] = 0x01;
    packet_data[4..8].copy_from_slice(&1000u32.to_be_bytes());
    packet_data[8..12].copy_from_slice(&0x12345678u32.to_be_bytes());
    packet_data[12..20].copy_from_slice(&[1, 2, 3, 4, 5, 6, 7, 8]);

    let result = processor.parse_packet(&packet_data);
    assert!(result.is_ok());

    let packet = result.unwrap();
    assert_eq!(packet.version, 2);
    assert_eq!(packet.payload_type, 96);
    assert_eq!(packet.sequence_number, 1);
    assert_eq!(packet.timestamp, 1000);
    assert_eq!(packet.ssrc, 0x12345678);
    assert_eq!(packet.payload.len(), 8);
}

#[test]
fn test_batch_processing() {
    let mut processor = SIMDRtpProcessor::new(detected_caps());

    let mut packets = Vec::new();
    for i in 0..4 {
        let mut packet_data = vec![0u8; 20];
        packet_data[0] = 0x80;
        packet_data[1] = 0x60;
        packet_data[2..4].copy_from_slice(&(i as u16).to_be_bytes());
        packet_data[4..8].copy_from_slice(&(1000 + i as u32).to_be_bytes());
        packet_data[8..12].copy_from_slice(&0x12345678u32.to_be_bytes());
        packet_data[12..20].copy_from_slice(&[1, 2, 3, 4, 5, 6, 7, 8]);
        packets.push(packet_data);
    }

    let packet_refs: Vec<&[u8]> = packets.iter().map(|p| p.as_slice()).collect();
    let result = processor.parse_packet_batch(&packet_refs);
    assert!(result.is_ok());

    let batch = result.unwrap();
    assert_eq!(batch.parsed_count(), 4);
    assert_eq!(batch.size(), 4);
}

#[test]
fn test_packet_generation() {
    let mut processor = SIMDRtpProcessor::new(detected_caps());

    let packet = FastRtpPacket {
        version: 2,
        padding: false,
        extension: false,
        csrc_count: 0,
        marker: false,
        payload_type: 96,
        sequence_number: 100,
        timestamp: 2000,
        ssrc: 0x87654321,
        csrc_list: empty_csrc_list(),
        payload: PacketBytes::from_slice(&[10, 20, 30, 40]),
        parse_time_ns: 0,
        parsed_with_simd: false,
    };

    let result = processor.generate_packet(&packet);
    assert!(result.is_ok());

    let data = result.unwrap();
    let data = data.as_slice();
    assert_eq!(data.len(), 16);
    assert_eq!(data[0], 0x80);
    assert_eq!(data[1], 0x60);
    assert_eq!(u16::from_be_bytes([data[2], data[3]]), 100);
    assert_eq!(u32::from_be_bytes([data[4], data[5], data[6], data[7]]), 2000);
    assert_eq!(
        u32::from_be_bytes([data[8], data[9], data[10], data[11]]),
        0x87654321
    );
    assert_eq!(&data[12..], &[10, 20, 30, 40]);
}

#[test]
fn rtp_round_trip_with_sources_and_extension_and_errors() {
    let mut processor = SIMDRtpProcessor::new(detected_caps());
    let packet = FastRtpPacket {
        version: 2,
        padding: true,
        extension: false,
        csrc_count: 2,
        marker: true,
        payload_type: 111,
        sequence_number: 65535,
        timestamp: 0xDEADBEEF,
        ssrc: 7,
        csrc_list: csrc_list_of(&[0x01020304, 0xA0B0C0D0]),
        payload: PacketBytes::from_slice(&[9, 8, 7]),
        parse_time_ns: 0,
        parsed_with_simd: false,
    };
    let bytes = processor.generate_packet(&packet).unwrap();
    let data = bytes.as_slice().to_vec();
    assert_eq!(&data[12..20], &[1, 2, 3, 4, 0xA0, 0xB0, 0xC0, 0xD0]);
    let parsed = processor.parse_packet(&data).unwrap();
    assert!(parsed.padding && parsed.marker && !parsed.parsed_with_simd);
    assert_eq!(parsed.csrc_count, 2);
    assert_eq!(parsed.csrc_list.as_slice(), &[0x01020304, 0xA0B0C0D0]);
    assert_eq!(parsed.payload.as_slice(), &[9, 8, 7]);
    assert_eq!(parsed.sequence_number, 65535);
    assert_eq!(parsed.timestamp, 0xDEADBEEF);

    // An extension header of one word is skipped.
    let mut ext = vec![0x90u8, 0x60, 0, 1, 0, 0, 0, 1, 0, 0, 0, 2, 0xBE, 0xDE, 0, 1, 1, 2, 3, 4, 42];
    let parsed = processor.parse_packet(&ext).unwrap();
    assert_eq!(parsed.payload.as_slice(), &[42]);
    // A truncated extension is an invalid packet.
    ext.truncate(18);
    assert!(processor.parse_packet(&ext).is_err());
    assert!(processor.parse_packet(&[0x80, 0x60, 0, 1]).is_err());
    let stats = processor.get_stats();
    assert_eq!(stats.parsing_errors, 2);
    assert_eq!(stats.packets_processed, 2);
}

use dpstream::streaming::capture::{FramePriority, VideoFrame as CapturedFrame};
use dpstream::streaming::encoder::{EncoderConfig, EncoderType, VideoEncoder};

#[test]
fn test_encoder_creation() {
    let config = EncoderConfig::default();
    let result = VideoEncoder::new(config);
    assert!(result.is_ok(), "Encoder creation should succeed");
}

#[test]
fn test_encoder_lifecycle() {
    let mut config = EncoderConfig::default();
    config.encoder_type = EncoderType::Software;

    let mut encoder = VideoEncoder::new(config).unwrap();

    encoder.initialize();

    let frame = CapturedFrame {
        data: Arc::new(vec![128; 1920 * 1080 * 3 / 2]),
        width: 1920,
        height: 1080,
        timestamp: 12345,
        frame_number: 1,
        priority: FramePriority::Normal,
    };

    let encode_result = encoder.encode_frame(frame);
    assert!(encode_result.is_ok(), "Frame encoding should succeed");
    let encoded = encode_result.unwrap();
    assert_eq!(encoded.timestamp, 12345);
    assert_eq!(encoded.frame_number, 1);
    assert!(!encoded.is_keyframe);
    assert_eq!(encoded.size_bytes, 1920 * 1080 * 3 / 2 / 8);
    assert_eq!(encoded.data.len(), 1920 * 1080 * 3 / 2 / 8);
    assert_eq!(encoder.get_stats().frames_encoded, 1);

    encoder.shutdown();
    let after = encoder.encode_frame(CapturedFrame {
        data: Arc::new(vec![0; 16]),
        width: 4,
        height: 4,
        timestamp: 0,
        frame_number: 0,
        priority: FramePriority::Critical,
    });
    assert!(after.is_err());
}

#[test]
fn test_config_validation() {
    let mut config = EncoderConfig::default();
    config.bitrate = 0;

    let result = VideoEncoder::new(config);
    assert!(result.is_err(), "Should fail with invalid bitrate");
}

#[test]
fn encoder_keyframes_and_queue_limit() {
    let mut encoder = VideoEncoder::new(EncoderConfig::default()).unwrap();
    encoder.initialize();
    for n in 0..25u64 {
        let encoded = encoder
            .encode_frame(CapturedFrame {
                data: Arc::new(vec![1; 80]),
                width: 8,
                height: 10,
                timestamp: n * 16,
                frame_number: n,
                priority: FramePriority::Normal,
            })
            .unwrap();
        assert_eq!(encoded.is_keyframe, n % 60 == 0);
        assert_eq!(encoded.size_bytes, 10);
        assert_eq!(encoded.data.len(), 1024);
        assert!(encoded.data.iter().all(|b| *b == 0x42));
    }
    let stats = encoder.get_stats();
    assert_eq!(stats.frames_encoded, 25);
    assert_eq!(stats.dropped_frames, 15);
}

#[test]
fn test_circuit_breaker() {
    let config = CircuitBreakerConfig {
        failure_threshold: 3,
        recovery_timeout_secs: 1,
        success_threshold: 2,
        half_open_max_requests: 1,
        request_timeout_secs: 5,
    };

    let mut breaker = CircuitBreaker::new(config);

    assert_eq!(breaker.get_state(), CircuitBreakerState::Closed);
    assert!(breaker.is_request_allowed());

    breaker.record_failure_at(100);
    breaker.record_failure_at(100);
    breaker.record_failure_at(100);

    assert_eq!(breaker.get_state(), CircuitBreakerState::Open);
    assert!(!breaker.is_request_allowed());

    // Two seconds later the recovery timeout has passed.
    breaker.record_success_at(102);
    assert_eq!(breaker.get_state(), CircuitBreakerState::HalfOpen);

    breaker.record_success_at(102);
    breaker.record_success_at(102);

    assert!(breaker.is_request_allowed());
    assert_eq!(breaker.get_state(), CircuitBreakerState::Closed);
}

use dpstream::streaming::advanced_networking::{plan_network_optimization, NetworkConfig, PacketPool};

#[test]
fn test_packet_pool_creation() {
    let result = PacketPool::new(0, 1500, 100);
    assert!(result.is_ok());

    let pool = result.unwrap();
    assert_eq!(pool.available_packets.len(), 100);
    assert_eq!(pool.packet_size, 1500);
}

#[test]
fn packet_pool_buffer_ids() {
    let pool = PacketPool::new(2, 64, 3).unwrap();
    let ids: Vec<u64> = pool.available_packets.iter().map(|b| b.buffer_id).collect();
    assert_eq!(ids, vec![2u64 << 32, (2u64 << 32) | 1, (2u64 << 32) | 2]);
    assert!(pool.available_packets.iter().all(|b| b.data.len() == 64 && b.length == 0));
    assert!(pool.allocated_packets.is_empty());
}

#[test]
fn network_tuning_decisions() {
    let config = NetworkConfig {
        enable_io_uring: true,
        enable_rdma: false,
        io_uring_queue_depth: 128,
        rdma_queue_depth: 64,
        batch_processing_size: 32,
        zero_copy_threshold: 1024,
        cpu_affinity: vec![0, 1],
        interrupt_coalescing: true,
    };
    let slow = plan_network_optimization(&config, false, false, 2_000_000, true);
    assert!(slow.start_io_uring);
    assert!(!slow.start_rdma);
    assert_eq!(slow.batch_processing_size, 64);
    let fine = plan_network_optimization(&config, false, false, 1_000_000, false);
    assert!(!fine.start_io_uring);
    assert_eq!(fine.batch_processing_size, 32);
    let lossy = NetworkConfig { enable_rdma: true, ..config };
    assert!(plan_network_optimization(&lossy, true, false, 0, true).start_rdma);
    assert!(!plan_network_optimization(&lossy, true, true, 0, true).start_rdma);
}

use dpstream::streaming::moonlight::{
    negotiate_stream_config, parse_control_message, parse_controller_input, server_stats,
    ClientCapabilities, ControlMessage, ControllerInput, SessionState,
};

#[test]
fn control_message_decoding() {
    assert_eq!(parse_control_message(&[0x0C, 0, 0]), ControlMessage::TooShort);
    assert_eq!(parse_control_message(&[0x0A, 0, 0, 0]), ControlMessage::Keepalive);
    assert_eq!(parse_control_message(&[0x0C, 0, 0, 0, 1]), ControlMessage::TruncatedController);
    assert_eq!(parse_control_message(&[0x34, 0x12, 0, 0]), ControlMessage::Unknown(0x1234));
    let report: [u8; 20] = [
        0x0C, 0, 0, 0, // type
        0x01, 0x10, 0, 0x80, // buttons
        0xFF, 0x7F, // left x = 32767
        0x00, 0x80, // left y = -32768
        0xFE, 0xFF, // right x = -2
        0x05, 0x00, // right y = 5
        200, 17, 0, 0,
    ];
    let expected = ControllerInput {
        buttons: 0x8000_1001,
        left_stick_x: 32767,
        left_stick_y: -32768,
        right_stick_x: -2,
        right_stick_y: 5,
        left_trigger: 200,
        right_trigger: 17,
    };
    assert_eq!(parse_control_message(&report), ControlMessage::Controller(expected));
    assert_eq!(parse_controller_input(&report), Some(expected));
    assert_eq!(parse_controller_input(&report[..19]), None);
}

#[test]
fn session_statistics() {
    let sessions = vec![
        (SessionState::Streaming, 500u64),
        (SessionState::Paused, 300u64),
        (SessionState::Streaming, 900u64),
    ];
    let stats = server_stats(&sessions, true, 1000);
    assert_eq!(stats.active_sessions, 2);
    assert_eq!(stats.total_sessions, 3);
    assert!(stats.is_running);
    assert_eq!(stats.uptime_ms, 700);
    let empty = server_stats(&Vec::new(), false, 1000);
    assert_eq!(empty.active_sessions, 0);
    assert_eq!(empty.uptime_ms, 0);
    let ahead = server_stats(&vec![(SessionState::Connecting, 2000u64)], true, 1000);
    assert_eq!(ahead.uptime_ms, 0);
}

#[test]
fn stream_negotiation() {
    let caps = ClientCapabilities {
        max_resolution: (1920, 1080),
        supported_codecs: vec!["H264".to_string()],
        audio_codecs: vec!["Opus".to_string()],
        max_fps: 60,
        supports_hdr: false,
    };
    let negotiated = negotiate_stream_config(&caps);
    assert_eq!(negotiated.video_resolution, (1280, 720));
    assert_eq!(negotiated.video_fps, 60);
    assert_eq!(negotiated.video_bitrate, 15000);
    assert_eq!(negotiated.audio_sample_rate, 48000);
    assert_eq!(negotiated.audio_channels, 2);
}

use dpstream::streaming::health_server::{content_type, response_status, route_request, Endpoint};
use dpstream::streaming::moonlight::{accepts_new_client, ServerConfig};

#[test]
fn health_endpoint_routing() {
    assert_eq!(route_request("GET", "/health"), Endpoint::Health);
    assert_eq!(route_request("GET", "/ready"), Endpoint::Ready);
    assert_eq!(route_request("GET", "/metrics"), Endpoint::Metrics);
    assert_eq!(route_request("GET", "/"), Endpoint::Root);
    assert_eq!(route_request("POST", "/health"), Endpoint::NotFound);
    assert_eq!(route_request("GET", "/healthz"), Endpoint::NotFound);
    assert_eq!(response_status(Endpoint::Ready, false), 503);
    assert_eq!(response_status(Endpoint::Ready, true), 200);
    assert_eq!(response_status(Endpoint::NotFound, true), 404);
    assert_eq!(response_status(Endpoint::Metrics, false), 200);
    assert_eq!(content_type(Endpoint::Health), Some("application/json"));
    assert_eq!(content_type(Endpoint::Root), Some("text/html"));
    assert_eq!(content_type(Endpoint::NotFound), None);
}

#[test]
fn client_limit() {
    let config = ServerConfig {
        bind_addr: "127.0.0.1".to_string(),
        port: 47989,
        max_clients: 4,
        enable_encryption: true,
        enable_authentication: true,
        stream_timeout_ms: 30000,
    };
    assert!(accepts_new_client(&config, 3));
    assert!(!accepts_new_client(&config, 4));
}

use dpstream::streaming::sunshine::{
    validate_client_capabilities, ClientInfo, DolphinStreamHost, StreamConfig,
};

fn client(id: &str, caps: &[&str]) -> ClientInfo {
    ClientInfo {
        id: id.to_string(),
        name: format!("{id} device"),
        address: "100.64.0.2".to_string(),
        capabilities: caps.iter().map(|c| c.to_string()).collect(),
        connected_at: 1_700_000_000,
    }
}

#[test]
fn stream_host_clients_and_requests() {
    let config = StreamConfig::default();
    assert_eq!(config.encoder, "nvenc");
    assert_eq!((config.bitrate, config.width, config.height, config.fps), (15000, 1920, 1080, 60));
    assert_eq!(config.audio_bitrate, 128);

    let mut host = DolphinStreamHost::new(config, "100.64.0.1".to_string()).unwrap();
    assert!(!host.is_streaming());

    let refused = host.add_client("tv", client("tv", &["h264_decode"]));
    assert_eq!(
        refused.unwrap_err().to_string(),
        "Client tv does not support required capabilities"
    );
    assert!(host.get_active_clients().is_empty());

    let full = ["h264_decode", "gamestream_protocol"];
    host.add_client("switch", client("switch", &full)).unwrap();
    host.add_client("phone", client("phone", &full)).unwrap();
    host.add_client("switch", client("switch2", &full)).unwrap();
    let names: Vec<String> = host.get_active_clients().iter().map(|c| c.name.clone()).collect();
    assert_eq!(names, vec!["switch2 device", "phone device"]);

    host.start_game_stream(0x1234).unwrap();
    assert!(host.is_streaming());
    let stats = host.get_stream_stats();
    assert_eq!(stats.active_clients, 2);
    assert_eq!(stats.current_bitrate, 15000);
    assert_eq!(stats.average_latency_ms, 25);

    host.remove_client("phone").unwrap();
    host.remove_client("nobody").unwrap();
    assert_eq!(host.get_active_clients().len(), 1);

    let params: Vec<(String, String)> = vec![("appid".to_string(), "1".to_string())];
    assert!(host.handle_moonlight_request("applist", &params).unwrap().contains("<AppTitle>Dolphin - GameCube/Wii Emulator</AppTitle>"));
    assert!(host.handle_moonlight_request("launch", &params).unwrap().contains("rtsp://192.168.1.100:48010"));
    assert!(host.handle_moonlight_request("resume", &params).unwrap().contains("<resume>1</resume>"));
    assert!(host.is_streaming());
    assert!(host.handle_moonlight_request("quit", &params).unwrap().contains("<resume>0</resume>"));
    assert!(!host.is_streaming());
    assert_eq!(
        host.handle_moonlight_request("pair", &params).unwrap_err().to_string(),
        "Unknown request type: pair"
    );
    assert!(validate_client_capabilities(&vec!["gamestream_protocol".to_string(), "h264_decode".to_string()]));
}

use dpstream::streaming::optimization::{split_thread_pools, streaming_thread_pool_sizes};
use dpstream::streaming::quantum_optimization::{
    decode_measurement, decode_measurement_for, AlignmentStrategy, PrefetchStrategy,
    SchedulingPolicy,
};

#[test]
fn thread_pool_split() {
    assert_eq!(split_thread_pools(1), (1, 0));
    assert_eq!(split_thread_pools(2), (1, 1));
    assert_eq!(split_thread_pools(7), (3, 4));
    assert_eq!(split_thread_pools(16), (8, 8));
    let (encoding, processing) = streaming_thread_pool_sizes();
    assert!(encoding >= 1);
    assert_eq!(encoding + processing, num_cpus::get());
}

#[test]
fn measurement_decoding() {
    let all = vec![true; 16];
    let d = decode_measurement_for(&all, 4);
    assert_eq!(
        d.compiler_flags,
        vec!["-Copt-level=3", "-Clto=fat", "-Ctarget-features=+avx2,+fma", "-Ctarget-cpu=native"]
    );
    assert_eq!(d.memory_layout.alignment_strategy, AlignmentStrategy::CacheLine);
    assert_eq!(d.memory_layout.prefetch_distance, 64);
    assert!(d.memory_layout.cache_line_optimization);
    assert_eq!(d.memory_layout.numa_affinity, vec![0, 1]);
    assert_eq!(d.threading_strategy.core_affinity, vec![0, 1, 2, 3]);
    assert_eq!(d.threading_strategy.thread_count, 4);
    assert_eq!(d.threading_strategy.scheduling_policy, SchedulingPolicy::WorkStealing);
    assert_eq!(d.threading_strategy.priority_levels, vec![0, 0, 0, 0]);
    assert!(d.cache_configuration.l1_optimization && d.cache_configuration.l3_optimization);
    assert_eq!(d.cache_configuration.prefetch_strategy, PrefetchStrategy::Aggressive);

    let mut some = vec![false; 16];
    some[0] = true;
    some[2] = true;
    let d = decode_measurement_for(&some, 5);
    assert_eq!(d.compiler_flags, vec!["-Copt-level=2", "-Clto=thin"]);
    assert_eq!(d.memory_layout.alignment_strategy, AlignmentStrategy::PageBoundary);
    assert_eq!(d.memory_layout.prefetch_distance, 32);
    assert_eq!(d.memory_layout.numa_affinity, vec![0]);
    assert_eq!(d.threading_strategy.thread_count, 2);
    assert_eq!(d.threading_strategy.scheduling_policy, SchedulingPolicy::RoundRobin);
    assert_eq!(d.cache_configuration.prefetch_strategy, PrefetchStrategy::Conservative);

    let none = decode_measurement(&vec![false; 16]);
    assert_eq!(none.compiler_flags, vec!["-Copt-level=1", "-Clto=off"]);
    assert_eq!(none.threading_strategy.core_affinity.len(), num_cpus::get());
}

use dpstream::streaming::audio::{
    enqueue_sample, sample_from_buffer, AudioConfig, AudioEncoder, AudioSample, CaptureCounters,
};
use dpstream::streaming::moonlight::AudioCodec;
use std::collections::VecDeque;

#[test]
fn test_audio_config_defaults() {
    let config = AudioConfig::default();
    assert_eq!(config.sample_rate, 48000);
    assert_eq!(config.channels, 2);
    assert_eq!(config.bit_depth, 16);
    assert_eq!(config.codec, AudioCodec::Opus);
}

#[test]
fn test_audio_encoder_creation() {
    let config = AudioConfig::default();
    let result = AudioEncoder::new(config);
    assert!(result.is_ok());
}

#[test]
fn test_pcm_encoding() {
    let config = AudioConfig { codec: AudioCodec::PCM, ..Default::default() };
    let encoder = AudioEncoder::new(config).unwrap();

    let sample = AudioSample {
        data: vec![0, 1, 2, 3, 4, 5, 6, 7],
        timestamp: 1000,
        sample_rate: 48000,
        channels: 2,
        samples_per_channel: 2,
    };

    let result = encoder.encode_pcm(sample);
    assert!(result.is_ok());

    let frame = result.unwrap().unwrap();
    assert_eq!(frame.codec, AudioCodec::PCM);
    assert_eq!(frame.data.len(), 8);
}

#[test]
fn test_opus_encoding_simulation() {
    let config = AudioConfig { codec: AudioCodec::Opus, ..Default::default() };
    let encoder = AudioEncoder::new(config).unwrap();

    let sample = AudioSample {
        data: vec![0u8; 1024],
        timestamp: 1000,
        sample_rate: 48000,
        channels: 2,
        samples_per_channel: 256,
    };

    let result = encoder.encode_opus(sample);
    assert!(result.is_ok());

    let frame = result.unwrap().unwrap();
    assert_eq!(frame.codec, AudioCodec::Opus);
    assert_eq!(frame.data.len(), 128);
}

#[test]
fn audio_encoding_by_codec_and_queueing() {
    let mut aac = AudioEncoder::new(AudioConfig { codec: AudioCodec::AAC, ..Default::default() }).unwrap();
    let sample = sample_from_buffer(vec![7u8; 600], 42, &AudioConfig::default());
    assert_eq!(sample.samples_per_channel, 150);
    let frame = aac.encode_sample(sample.clone()).unwrap().unwrap();
    assert_eq!(frame.codec, AudioCodec::AAC);
    assert_eq!(frame.data, vec![0u8; 100]);
    assert_eq!((frame.timestamp, frame.sample_rate, frame.channels, frame.samples), (42, 48000, 2, 150));

    let mut queue = VecDeque::new();
    let mut counters = CaptureCounters {
        frames_captured: 0,
        frames_dropped: 0,
        bytes_processed: 0,
        buffer_underruns: 0,
    };
    for t in 0..33u64 {
        let mut s = sample.clone();
        s.timestamp = t;
        enqueue_sample(&mut queue, &mut counters, s);
    }
    assert_eq!(queue.len(), 31);
    assert_eq!(queue.front().unwrap().timestamp, 1);
    assert_eq!(counters.frames_captured, 32);
    assert_eq!(counters.bytes_processed, 32 * 600);
    assert_eq!(counters.frames_dropped, 1);
    assert_eq!(counters.buffer_underruns, 1);
}

use dpstream::streaming::error_recovery::{
    correlation_expired, CorrelationStatus, ErrorRecoveryConfig, ErrorRecoverySystem,
};

#[test]
fn test_error_registration() {
    let mut system = ErrorRecoverySystem::new(ErrorRecoveryConfig::default());

    let (correlation_id, recover) = system.register_error(
        String::new(),
        ErrorType::NetworkError,
        ErrorSeverity::High,
        "network".to_string(),
    );
    assert!(!correlation_id.is_empty());
    assert!(correlation_id.starts_with("corr_"));
    assert!(recover);

    let stats = system.get_statistics();
    assert_eq!(stats.total_errors, 1);
    assert_eq!(stats.active_correlations, 1);
}

#[test]
fn error_correlation_and_breakers() {
    let mut config = ErrorRecoveryConfig::default();
    config.circuit_breaker_configs.push((
        "video".to_string(),
        CircuitBreakerConfig {
            failure_threshold: 2,
            recovery_timeout_secs: 10,
            success_threshold: 1,
            half_open_max_requests: 1,
            request_timeout_secs: 5,
        },
    ));
    let mut system = ErrorRecoverySystem::new(config);

    let (id, recover) = system.register_error_at(
        "c1".to_string(),
        ErrorType::VideoError,
        ErrorSeverity::Medium,
        "video".to_string(),
        100,
    );
    assert_eq!(id, "c1");
    assert!(!recover);
    assert_eq!(system.breaker_state("video"), Some(CircuitBreakerState::Closed));
    // The open correlation keeps the severity of its first error.
    let (_, recover) = system.register_error_at(
        "c1".to_string(),
        ErrorType::VideoError,
        ErrorSeverity::Critical,
        "video".to_string(),
        101,
    );
    assert!(!recover);
    assert_eq!(system.breaker_state("video"), Some(CircuitBreakerState::Open));
    assert_eq!(system.breaker_state("audio"), None);
    let stats = system.get_statistics();
    assert_eq!((stats.total_errors, stats.active_correlations, stats.total_correlations), (2, 1, 1));

    system.update_circuit_breaker_at("video", true, 200);
    assert_eq!(system.breaker_state("video"), Some(CircuitBreakerState::HalfOpen));
    system.update_circuit_breaker_at("video", true, 201);
    assert_eq!(system.breaker_state("video"), Some(CircuitBreakerState::Closed));

    assert!(system.record_recovery(RecoveryOutcome::Success));
    assert!(!system.record_recovery(RecoveryOutcome::RetryableFailure));
    let stats = system.get_statistics();
    assert_eq!(
        (stats.recovery_attempts, stats.successful_recoveries, stats.failed_recoveries),
        (2, 1, 1)
    );

    // Open correlations stay however old they are.
    assert_eq!(system.cleanup_correlations_at(1_000_000), 0);
    assert!(correlation_expired(CorrelationStatus::Resolved, 0, 3600, 3600));
    assert!(!correlation_expired(CorrelationStatus::Resolved, 0, 3600, 3599));
    assert!(!correlation_expired(CorrelationStatus::Recovering, 0, 3600, 10_000));
    assert!(correlation_expired(CorrelationStatus::Closed, 10, 0, 5));
}

#[test]
fn bolt_and_pgo_arguments() {
    let config = BoltConfig {
        enable_bolt: true,
        perf_data_collection: true,
        optimization_level: 3,
        split_functions: true,
        reorder_blocks: false,
        optimize_branches: true,
        eliminate_unreachable: false,
    };
    assert_eq!(
        bolt_arguments(
            &config,
            "/bin/server",
            "/tmp/server-bolt",
            "/tmp/perf.data"
        ),
        vec![
            "/bin/server",
            "-o",
            "/tmp/server-bolt",
            "-data",
            "/tmp/perf.data",
            "-split-functions",
            "-reorder-functions=hfsort+",
            "-O",
            "3"
        ]
    );
    let flags = generate_optimized_flags("/tmp/pgo", true, 6);
    assert_eq!(flags.len(), 10);
    assert_eq!(flags[6], "-Cprofile-use=/tmp/pgo");
    assert_eq!(flags[7], "-Cllvm-args=-inline-threshold=1000");
    assert_eq!(flags[9], "-Cllvm-args=-enable-loop-vectorization");
    let plain = generate_optimized_flags("p", false, 3);
    assert_eq!(plain.len(), 7);
}

use dpstream::streaming::audio::{AudioCapture, ProcessStep};

#[test]
fn test_audio_capture_creation() {
    let config = AudioConfig::default();
    let result = AudioCapture::new(config);
    assert!(result.is_ok());
}

#[test]
fn test_audio_stats() {
    let config = AudioConfig::default();
    let capture = AudioCapture::new(config).unwrap();

    let stats = capture.get_stats();
    assert_eq!(stats.frames_captured, 0);
    assert_eq!(stats.frames_dropped, 0);
    assert_eq!(stats.bytes_processed, 0);
}

#[test]
fn audio_capture_queues_and_encodes() {
    let mut capture = AudioCapture::new(AudioConfig::default()).unwrap();
    assert!(capture.initialize().is_ok());
    // Before capture starts the processing loop has nothing to do.
    capture.handle_audio_sample(vec![1u8; 64], 7);
    assert!(matches!(capture.process_next_sample(), ProcessStep::Idle));
    assert!(capture.start_capture().is_ok());
    assert!(capture.start_capture().is_ok());
    match capture.process_next_sample() {
        ProcessStep::Encoded(frame) => {
            assert_eq!(frame.codec, AudioCodec::Opus);
            assert_eq!(frame.data.len(), 8);
            assert_eq!(frame.timestamp, 7);
            assert_eq!(frame.samples, 16);
        }
        other => panic!("unexpected step {:?}", other),
    }
    assert!(matches!(capture.process_next_sample(), ProcessStep::Idle));
    let stats = capture.get_stats();
    assert_eq!(stats.frames_captured, 1);
    assert_eq!(stats.bytes_processed, 64);
    assert_eq!(stats.encoding_errors, 0);

    for t in 0..33u64 {
        capture.handle_audio_sample(vec![0u8; 4], t);
    }
    let stats = capture.get_stats();
    assert_eq!(stats.frames_captured, 33);
    assert_eq!(stats.frames_dropped, 1);
    assert_eq!(stats.buffer_underruns, 1);
    // The oldest sample went when the queue was full.
    match capture.process_next_sample() {
        ProcessStep::Encoded(frame) => assert_eq!(frame.timestamp, 1),
        other => panic!("unexpected step {:?}", other),
    }
    assert!(capture.stop_capture().is_ok());
    assert!(capture.stop_capture().is_ok());
}

use dpstream::streaming::capture::{QualityPreset, VideoCapture, VideoCaptureConfig, VideoEncoder as CaptureEncoder};

#[test]
fn test_video_capture_creation() {
    let config = VideoCaptureConfig {
        window_id: 0x12345678,
        width: 1920,
        height: 1080,
        fps: 60,
        bitrate: 15000,
        encoder: CaptureEncoder::Software,
        quality_preset: QualityPreset::Fast,
    };

    let result = VideoCapture::new(config);
    assert!(result.is_ok(), "VideoCapture creation should succeed");

    let capture = result.unwrap();
    assert!(!capture.is_capturing(), "Should not be capturing initially");
}

#[test]
fn test_video_capture_lifecycle() {
    let config = VideoCaptureConfig {
        window_id: 0x12345678,
        width: 1280,
        height: 720,
        fps: 30,
        bitrate: 5000,
        encoder: CaptureEncoder::Software,
        quality_preset: QualityPreset::VeryFast,
    };

    let mut capture = VideoCapture::new(config).unwrap();

    let start_result = capture.start_capture();
    assert!(start_result.is_ok(), "Capture start should succeed");
    assert!(capture.is_capturing(), "Should be capturing after start");

    let stop_result = capture.stop_capture();
    assert!(stop_result.is_ok(), "Capture stop should succeed");
    assert!(!capture.is_capturing(), "Should not be capturing after stop");
}

#[test]
fn test_frame_generation() {
    let config = VideoCaptureConfig {
        window_id: 0x12345678,
        width: 640,
        height: 480,
        fps: 15,
        bitrate: 2000,
        encoder: CaptureEncoder::Software,
        quality_preset: QualityPreset::UltraFast,
    };

    let mut capture = VideoCapture::new(config).unwrap();
    capture.start_capture().unwrap();

    // The frame loop's rounds over 200 ms at 15 frames per second.
    let interval = capture.frame_interval_ms();
    assert_eq!(interval, 66);
    let mut elapsed = 0;
    while elapsed < 200 {
        assert!(capture.generate_frame_at(elapsed * 1_000_000).is_some());
        elapsed += interval;
    }

    let stats = capture.get_stats();
    assert!(stats.frames_captured > 0, "Should have captured some frames");

    capture.stop_capture().unwrap();
    assert!(capture.generate_frame_at(0).is_none());
}

#[test]
fn generated_frames_are_gray_and_numbered() {
    let config = VideoCaptureConfig {
        window_id: 1,
        width: 4,
        height: 2,
        fps: 60,
        bitrate: 1000,
        encoder: CaptureEncoder::NVENC,
        quality_preset: QualityPreset::Medium,
    };
    let mut capture = VideoCapture::new(config).unwrap();
    assert!(capture.generate_frame_at(5).is_none());
    capture.start_capture().unwrap();
    let first = capture.generate_frame_at(10).unwrap();
    let second = capture.generate_frame_at(20).unwrap();
    assert_eq!(first.frame_number, 1);
    assert_eq!(second.frame_number, 2);
    assert_eq!(second.timestamp, 20);
    assert_eq!(*first.data, vec![128u8; 12]);
    let stats = capture.get_stats();
    assert_eq!(stats.frames_captured, 2);
    assert!(stats.is_active);
    assert_eq!(stats.config.width, 4);
    assert_eq!(capture.frame_interval_ms(), 16);
}

use dpstream::streaming::advanced_networking::{
    AdvancedNetworkingSystem, MessagePriority, MessageType, NetworkMessage, PacketProcessor,
};

#[test]
fn test_advanced_networking_system() {
    let config = NetworkConfig {
        enable_io_uring: true,
        enable_rdma: false,
        io_uring_queue_depth: 128,
        rdma_queue_depth: 64,
        batch_processing_size: 32,
        zero_copy_threshold: 1024,
        cpu_affinity: vec![0, 1],
        interrupt_coalescing: true,
    };

    let result = AdvancedNetworkingSystem::new(config);
    assert!(result.is_ok());
}

#[test]
fn test_zero_copy_packet_processing() {
    let config = NetworkConfig {
        enable_io_uring: true,
        enable_rdma: false,
        io_uring_queue_depth: 128,
        rdma_queue_depth: 64,
        batch_processing_size: 16,
        zero_copy_threshold: 512,
        cpu_affinity: vec![],
        interrupt_coalescing: false,
    };

    let mut system = AdvancedNetworkingSystem::new(config).unwrap();

    let packets = vec![NetworkMessage {
        data: vec![0u8; 1024],
        msg_type: MessageType::VideoFrame,
        priority: MessagePriority::High,
        timestamp: std::time::Instant::now(),
    }];

    let result = system.process_packets_zero_copy(packets);
    assert!(result.is_ok());
}

#[test]
fn networking_counters_and_rdma() {
    let config = NetworkConfig {
        enable_io_uring: false,
        enable_rdma: true,
        io_uring_queue_depth: 8,
        rdma_queue_depth: 8,
        batch_processing_size: 8,
        zero_copy_threshold: 512,
        cpu_affinity: vec![],
        interrupt_coalescing: false,
    };
    let mut system = AdvancedNetworkingSystem::new(config).unwrap();
    assert!(system.initialize_io_uring().is_ok());
    assert!(system.initialize_rdma().is_ok());
    let batch = vec![
        NetworkMessage {
            data: vec![1],
            msg_type: MessageType::Control,
            priority: MessagePriority::Critical,
            timestamp: std::time::Instant::now(),
        },
        NetworkMessage {
            data: vec![],
            msg_type: MessageType::Heartbeat,
            priority: MessagePriority::Low,
            timestamp: std::time::Instant::now(),
        },
    ];
    system.process_packets_zero_copy(batch).unwrap();
    system.process_packets_zero_copy(vec![]).unwrap();
    assert!(system.send_rdma(vec![1, 2, 3]).is_ok());
    let stats = system.get_network_stats();
    assert_eq!(stats.zero_copy_operations, 2);
    assert_eq!(stats.rdma_operations, 1);
    assert_eq!(stats.active_connections, 0);
    // Nothing to react to: the counters show no latency and no loss.
    assert!(system.optimize_network_configuration().is_ok());

    let mut plain = AdvancedNetworkingSystem::new(NetworkConfig {
        enable_io_uring: false,
        enable_rdma: false,
        io_uring_queue_depth: 8,
        rdma_queue_depth: 8,
        batch_processing_size: 8,
        zero_copy_threshold: 512,
        cpu_affinity: vec![],
        interrupt_coalescing: false,
    })
    .unwrap();
    let err = plain.send_rdma(vec![0]).unwrap_err();
    assert_eq!(err.to_string(), "RDMA not enabled");
    assert_eq!(plain.get_network_stats().rdma_operations, 0);
}

#[test]
fn processor_pools() {
    assert!(PacketProcessor::new(32).is_ok());
}

use dpstream::streaming::gpu_acceleration::GpuAccelerationSystem;

#[test]
fn test_gpu_system_creation() {
    let config = GpuConfig::default();
    let result = GpuAccelerationSystem::new(config);

    // Should succeed even without GPU hardware (will just have empty backends)
    assert!(result.is_ok());
    let stats = result.unwrap().get_stats();
    assert_eq!(stats.total_operations, 0);
    assert_eq!(stats.memory_usage, 0);
}

use dpstream::streaming::compiler_optimization::HostArch;
use dpstream::streaming::encoder::encoder_element_name;
use dpstream::streaming::simd_ops::capabilities_for;
use dpstream::streaming::error_recovery::{plan_recovery, StrategyCandidate};

fn candidate(can_handle: bool, priority: u32) -> StrategyCandidate {
    StrategyCandidate { can_handle, priority }
}

#[test]
fn recovery_plans_take_capable_strategies_by_priority() {
    let candidates = vec![
        candidate(true, 5),
        candidate(false, 100),
        candidate(true, 9),
        candidate(true, 1),
        candidate(false, 7),
    ];
    assert_eq!(plan_recovery(&candidates), vec![2, 0, 3]);
    assert!(plan_recovery(&vec![candidate(false, 1)]).is_empty());
    assert!(plan_recovery(&Vec::new()).is_empty());
}

#[test]
fn recovery_steps_stop_on_success_or_permanent_failure() {
    let mut system = ErrorRecoverySystem::new(ErrorRecoveryConfig::default());
    let plan = vec![4, 1, 7];
    assert_eq!(system.recovery_step(&plan, 0, RecoveryOutcome::RetryableFailure), Some(1));
    assert_eq!(system.recovery_step(&plan, 1, RecoveryOutcome::InProgress), Some(2));
    assert_eq!(system.recovery_step(&plan, 2, RecoveryOutcome::RetryableFailure), None);
    assert_eq!(system.recovery_step(&plan, 0, RecoveryOutcome::Success), None);
    assert_eq!(system.recovery_step(&plan, 0, RecoveryOutcome::PermanentFailure), None);
    let stats = system.get_statistics();
    assert_eq!(stats.recovery_attempts, 5);
    assert_eq!(stats.successful_recoveries, 1);
    assert_eq!(stats.failed_recoveries, 3);
}

#[test]
fn encoder_elements_follow_the_encoder_type() {
    assert_eq!(encoder_element_name(EncoderType::NVENC), "nvh264enc");
    assert_eq!(encoder_element_name(EncoderType::VAAPI), "vaapih264enc");
    assert_eq!(encoder_element_name(EncoderType::QuickSync), "mfh264enc");
    assert_eq!(encoder_element_name(EncoderType::Software), "x264enc");
}

#[test]
fn capabilities_follow_the_architecture_and_the_os() {
    let x86 = capabilities_for(HostArch::X86_64, true, false, true, true);
    assert!(x86.has_avx2 && !x86.has_avx512 && x86.has_fma && !x86.has_neon);
    assert_eq!(x86.cache_line_size, 64);
    // Without XSAVE enabled by the OS no AVX feature can be used.
    let no_os = capabilities_for(HostArch::X86_64, true, true, true, false);
    assert!(!no_os.has_avx2 && !no_os.has_avx512 && !no_os.has_fma);
    let arm = capabilities_for(HostArch::Aarch64, true, true, true, true);
    assert!(arm.has_neon && !arm.has_avx2 && !arm.has_avx512 && !arm.has_fma);
    let other = capabilities_for(HostArch::Other, true, true, true, true);
    assert!(!other.has_neon && !other.has_avx2);
    let here = SIMDVideoProcessor::detect_cpu_capabilities();
    assert_eq!(here.cache_line_size, 64);
}

#[test]
fn aligned_buffer_reads_back_what_was_written() {
    let mut buffer = AlignedBuffer::new(16, 8);
    buffer.as_mut_slice()[5] = 42;
    buffer.as_mut_slice()[15] = 7;
    let view = buffer.as_slice();
    assert_eq!(view.len(), 16);
    assert_eq!(view[5], 42);
    assert_eq!(view[15], 7);
    assert_eq!(view.as_ptr() as usize % 8, 0);
    let address = view.as_ptr() as usize;
    assert_eq!(buffer.as_mut_slice().as_ptr() as usize, address);
}

#[test]
fn recovery_plans_keep_candidate_order_among_equal_priorities() {
    let candidates = vec![
        candidate(true, 3),
        candidate(true, 5),
        candidate(true, 3),
        candidate(false, 5),
        candidate(true, 5),
        candidate(true, 3),
    ];
    assert_eq!(plan_recovery(&candidates), vec![1, 4, 0, 2, 5]);
}

#[test]
fn scaling_to_the_same_size_gives_the_image_back() {
    let mut processor = SIMDVideoProcessor::new();
    let src: Vec<u8> = (0..15u8).map(|v| v * 17).collect();
    let mut dst = vec![1u8; 17];
    processor.scale_image(&src, &mut dst, 5, 3, 5, 3).unwrap();
    assert_eq!(&dst[..15], &src[..]);
    assert_eq!(&dst[15..], &[1u8, 1]);
}

#[test]
fn span_contexts_carry_their_ids() {
    let mut baggage = std::collections::HashMap::new();
    baggage.insert("client".to_string(), "7".to_string());
    let span = dpstream::streaming::error_recovery::SpanContext {
        trace_id: "t1".to_string(),
        span_id: "s1".to_string(),
        parent_span_id: None,
        baggage,
    };
    let copy = span.clone();
    assert_eq!(copy.trace_id, "t1");
    assert!(copy.parent_span_id.is_none());
    assert_eq!(copy.baggage.get("client").map(|s| s.as_str()), Some("7"));
}
