//! GPU acceleration: backends, their capabilities and the acceleration
//! settings.

use vstd::prelude::*;

verus! {

/// GPU programming interfaces.
#[derive(Debug, Clone, Copy, PartialEq, Eq, Hash)]
pub enum GpuBackend {
    Cuda,
    Vulkan,
    OpenCL,
    Metal,
    DirectCompute,
}

/// What a GPU device offers.
#[derive(Debug, Clone, PartialEq, Eq)]
pub struct GpuCapabilities {
    pub backends: Vec<GpuBackend>,
    pub compute_units: u32,
    pub memory_size: u64,
    pub max_work_group_size: u32,
    pub supports_fp16: bool,
    pub supports_int8: bool,
    pub tensor_cores: bool,
    pub ray_tracing: bool,
    pub video_decode_hw: bool,
    pub video_encode_hw: bool,
}

/// GPU acceleration settings.
#[derive(Debug, Clone, Copy, PartialEq, Eq)]
pub struct GpuConfig {
    pub preferred_backend: GpuBackend,
    pub enable_async_compute: bool,
    pub memory_pool_size: usize,
    pub max_concurrent_operations: usize,
    pub enable_profiling: bool,
    pub fallback_to_cpu: bool,
}

impl GpuConfig {
    /// Vulkan first, asynchronous compute, a 512 MiB pool, eight
    /// concurrent operations, no profiling, CPU fallback.
    pub open spec fn spec_default() -> Self {
        GpuConfig {
            preferred_backend: GpuBackend::Vulkan,
            enable_async_compute: true,
            memory_pool_size: 536870912,
            max_concurrent_operations: 8,
            enable_profiling: false,
            fallback_to_cpu: true,
        }
    }
}

impl Default for GpuConfig {
    fn default() -> (c: Self)
        ensures
            c == GpuConfig::spec_default(),
    {
        GpuConfig {
            preferred_backend: GpuBackend::Vulkan,
            enable_async_compute: true,
            memory_pool_size: 512 * 1024 * 1024,
            max_concurrent_operations: 8,
            enable_profiling: false,
            fallback_to_cpu: true,
        }
    }
}

/// GPU memory counters.
#[derive(Debug, Clone, Copy, PartialEq, Eq)]
pub struct GpuMemoryStats {
    pub total_allocations: u64,
    pub current_usage: usize,
    pub peak_usage: usize,
    pub allocation_failures: u64,
    pub fragmentation_ratio: u64,
}

/// Scaling algorithms.
#[derive(Debug, Clone, Copy, PartialEq, Eq)]
pub enum ScalingAlgorithm {
    Bilinear,
    Bicubic,
    Lanczos,
    FsrUpscaling,
    DlssUpscaling,
}

/// Pixel formats.
#[derive(Debug, Clone, Copy, PartialEq, Eq)]
pub enum ColorFormat {
    RGB24,
    RGBA32,
    YUV420,
    YUV444,
    NV12,
    P010,
    RGB565,
    BGR24,
    BGRA32,
}

/// Video codecs.
#[derive(Debug, Clone, Copy, PartialEq, Eq)]
pub enum VideoCodec {
    H264,
    H265,
    AV1,
    VP9,
    VP8,
}

/// Encoder presets.
#[derive(Debug, Clone, Copy, PartialEq, Eq)]
pub enum EncodingPreset {
    UltraFast,
    Fast,
    Medium,
    Slow,
    HighQuality,
    Lossless,
}

/// Codec profiles.
#[derive(Debug, Clone, Copy, PartialEq, Eq)]
pub enum VideoProfile {
    Baseline,
    Main,
    High,
    High444,
}

/// Codec levels.
#[derive(Debug, Clone, Copy, PartialEq, Eq)]
pub enum VideoLevel {
    Level4_0,
    Level4_1,
    Level4_2,
    Level5_0,
    Level5_1,
    Level5_2,
    Level6_0,
    Level6_1,
    Level6_2,
}

/// HDR tone mapping methods.
#[derive(Debug, Clone, Copy, PartialEq, Eq)]
pub enum ToneMappingMethod {
    Reinhard,
    Filmic,
    ACES,
    Hable,
    Linear,
}

/// The capabilities found without any GPU backend compiled in: no backend,
/// no units, no memory, no features.
pub fn detect_gpu_capabilities() -> (r: Result<GpuCapabilities, anyhow::Error>)
    ensures
        r matches Ok(c) && c.backends@.len() == 0 && c.compute_units == 0 && c.memory_size == 0
            && c.max_work_group_size == 0 && !c.supports_fp16 && !c.supports_int8
            && !c.tensor_cores && !c.ray_tracing && !c.video_decode_hw && !c.video_encode_hw,
{
    Ok(
        GpuCapabilities {
            backends: Vec::new(),
            compute_units: 0,
            memory_size: 0,
            max_work_group_size: 0,
            supports_fp16: false,
            supports_int8: false,
            tensor_cores: false,
            ray_tracing: false,
            video_decode_hw: false,
            video_encode_hw: false,
        },
    )
}

/// The Vulkan compute backend.
#[derive(Debug, Clone, Copy, PartialEq, Eq)]
pub struct VulkanProcessor;

impl VulkanProcessor {
    /// Opens the backend; it always succeeds.
    pub fn new() -> (r: Result<Self, anyhow::Error>)
        ensures
            r is Ok,
    {
        Ok(VulkanProcessor)
    }

    /// Sixteen units, 4 GiB, work groups of 256, half floats.
    pub fn get_capabilities(&self) -> (c: GpuCapabilities)
        ensures
            c.backends@ == seq![GpuBackend::Vulkan],
            c.compute_units == 16,
            c.memory_size == 4294967296,
            c.max_work_group_size == 256,
            c.supports_fp16,
            !c.supports_int8 && !c.tensor_cores && !c.ray_tracing,
            !c.video_decode_hw && !c.video_encode_hw,
    {
        GpuCapabilities {
            backends: vec![GpuBackend::Vulkan],
            compute_units: 16,
            memory_size: 4 * 1024 * 1024 * 1024,
            max_work_group_size: 256,
            supports_fp16: true,
            supports_int8: false,
            tensor_cores: false,
            ray_tracing: false,
            video_decode_hw: false,
            video_encode_hw: false,
        }
    }

    pub fn backend_type(&self) -> (b: GpuBackend)
        ensures
            b == GpuBackend::Vulkan,
    {
        GpuBackend::Vulkan
    }
}

/// The OpenCL backend.
#[derive(Debug, Clone, Copy, PartialEq, Eq)]
pub struct OpenCLProcessor;

impl OpenCLProcessor {
    /// Opens the backend; it always succeeds.
    pub fn new() -> (r: Result<Self, anyhow::Error>)
        ensures
            r is Ok,
    {
        Ok(OpenCLProcessor)
    }

    /// Eight units, 2 GiB, work groups of 128, no special features.
    pub fn get_capabilities(&self) -> (c: GpuCapabilities)
        ensures
            c.backends@ == seq![GpuBackend::OpenCL],
            c.compute_units == 8,
            c.memory_size == 2147483648,
            c.max_work_group_size == 128,
            !c.supports_fp16 && !c.supports_int8 && !c.tensor_cores && !c.ray_tracing,
            !c.video_decode_hw && !c.video_encode_hw,
    {
        GpuCapabilities {
            backends: vec![GpuBackend::OpenCL],
            compute_units: 8,
            memory_size: 2 * 1024 * 1024 * 1024,
            max_work_group_size: 128,
            supports_fp16: false,
            supports_int8: false,
            tensor_cores: false,
            ray_tracing: false,
            video_decode_hw: false,
            video_encode_hw: false,
        }
    }

    pub fn backend_type(&self) -> (b: GpuBackend)
        ensures
            b == GpuBackend::OpenCL,
    {
        GpuBackend::OpenCL
    }
}

/// Counters of GPU work; the average compute time is in microseconds.
#[derive(Debug, Clone, Copy, PartialEq, Eq)]
pub struct GpuPerformanceStats {
    pub total_operations: u64,
    pub successful_operations: u64,
    pub failed_operations: u64,
    pub average_compute_time_us: u64,
    pub memory_usage: usize,
}

/// GPU acceleration over the backends that were compiled in and found.
pub struct GpuAccelerationSystem {
    backends: Vec<GpuBackend>,
    capabilities: GpuCapabilities,
    stats: GpuPerformanceStats,
    config: GpuConfig,
}

impl GpuAccelerationSystem {
    /// The backends with a processor ready.
    pub closed spec fn spec_backends(&self) -> Seq<GpuBackend> {
        self.backends@
    }

    pub closed spec fn spec_capabilities(&self) -> GpuCapabilities {
        self.capabilities
    }

    pub closed spec fn spec_config(&self) -> GpuConfig {
        self.config
    }

    pub closed spec fn spec_stats(&self) -> GpuPerformanceStats {
        self.stats
    }

    /// A system for `config` over the capabilities found, with a processor
    /// for each backend found that was compiled in, and zeroed counters.
    /// With no backend compiled in, none is found and none is ready.
    pub fn new(config: GpuConfig) -> (r: Result<Self, anyhow::Error>)
        ensures
            r matches Ok(g) && {
                &&& g.spec_config() == config
                &&& g.spec_capabilities().backends@.len() == 0
                &&& g.spec_backends().len() == 0
                &&& g.spec_stats() == GpuPerformanceStats {
                    total_operations: 0,
                    successful_operations: 0,
                    failed_operations: 0,
                    average_compute_time_us: 0,
                    memory_usage: 0,
                }
            },
    {
        let capabilities = match detect_gpu_capabilities() {
            Ok(c) => c,
            Err(e) => {
                return Err(e);
            },
        };
        // No backend is compiled in, so no processor is readied for any
        // backend found.
        let system = GpuAccelerationSystem {
            backends: Vec::new(),
            capabilities,
            stats: GpuPerformanceStats {
                total_operations: 0,
                successful_operations: 0,
                failed_operations: 0,
                average_compute_time_us: 0,
                memory_usage: 0,
            },
            config,
        };
        Ok(system)
    }

    /// The counters.
    pub fn get_stats(&self) -> (s: GpuPerformanceStats)
        ensures
            s == self.spec_stats(),
    {
        self.stats
    }
}

} // verus!
