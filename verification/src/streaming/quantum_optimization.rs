//! The build and runtime settings that a measured bit pattern of the
//! optimiser stands for, and the plain types that describe them.

use crate::streaming::simd_ops::processor_count;
use vstd::prelude::*;
use vstd::string::*;

verus! {

/// Kinds of constraint on an optimisation.
#[derive(Debug, Clone, Copy, PartialEq, Eq)]
pub enum ConstraintType {
    LatencyBound,
    ThroughputTarget,
    ResourceLimit,
    QualityThreshold,
}

/// How data is aligned in memory.
#[derive(Debug, Clone, Copy, PartialEq, Eq)]
pub enum AlignmentStrategy {
    CacheLine,
    PageBoundary,
    CustomAlignment(usize),
}

/// How memory is laid out.
#[derive(Debug, Clone)]
pub struct MemoryLayoutConfig {
    pub alignment_strategy: AlignmentStrategy,
    pub prefetch_distance: usize,
    pub cache_line_optimization: bool,
    pub numa_affinity: Vec<usize>,
}

/// How work is scheduled on threads.
#[derive(Debug, Clone, Copy, PartialEq, Eq)]
pub enum SchedulingPolicy {
    RoundRobin,
    FIFO,
    WorkStealing,
    PriorityBased,
}

/// How threads are used.
#[derive(Debug, Clone)]
pub struct ThreadingStrategy {
    pub core_affinity: Vec<usize>,
    pub thread_count: usize,
    pub scheduling_policy: SchedulingPolicy,
    pub priority_levels: Vec<i32>,
}

/// How data is prefetched.
#[derive(Debug, Clone, Copy, PartialEq, Eq)]
pub enum PrefetchStrategy {
    Conservative,
    Aggressive,
    Adaptive,
    Disabled,
}

/// Which cache levels are tuned for.
#[derive(Debug, Clone, Copy, PartialEq, Eq)]
pub struct CacheConfiguration {
    pub l1_optimization: bool,
    pub l2_optimization: bool,
    pub l3_optimization: bool,
    pub prefetch_strategy: PrefetchStrategy,
}

/// The outcome of measuring the register.
#[derive(Debug, Clone)]
pub enum MeasurementOutcome {
    Superposition,
    Collapsed(Vec<bool>),
    Entangled,
}

/// Counters of an annealing run.
#[derive(Debug, Default, Clone, Copy, PartialEq, Eq)]
pub struct AnnealingStatistics {
    pub total_iterations: u64,
    pub accepted_transitions: u64,
    pub rejected_transitions: u64,
    pub quantum_tunneling_events: u64,
    pub best_energy_updates: u64,
}

/// One-qubit Pauli operators.
#[derive(Debug, Clone, Copy, PartialEq, Eq)]
pub enum PauliOperator {
    I,
    X,
    Y,
    Z,
}

/// Classical optimisers for the variational circuits.
#[derive(Debug, Clone, Copy, PartialEq, Eq)]
pub enum OptimizationMethod {
    GradientDescent,
    Adam,
    BFGS,
    NelderMead,
}

/// The settings a measurement stands for, without the predicted gain.
#[derive(Debug, Clone)]
pub struct DecodedSettings {
    pub compiler_flags: Vec<String>,
    pub memory_layout: MemoryLayoutConfig,
    pub threading_strategy: ThreadingStrategy,
    pub cache_configuration: CacheConfiguration,
}

/// Bits of a measurement that carry a setting.
pub const MEASUREMENT_BITS: usize = 16;

/// The compiler flags of measurement `m`: bits 0 and 1 pick the
/// optimisation level (3 with both, 2 with bit 0 alone, else 1), bits 2 and
/// 3 the link-time optimisation (fat with both, thin with bit 2 alone, else
/// off), bit 4 adds AVX2 and FMA, bit 5 the native CPU.
pub open spec fn decoded_flags(m: Seq<bool>) -> Seq<Seq<char>> {
    let opt = if m[0] && m[1] {
        "-Copt-level=3"@
    } else if m[0] {
        "-Copt-level=2"@
    } else {
        "-Copt-level=1"@
    };
    let lto = if m[2] && m[3] {
        "-Clto=fat"@
    } else if m[2] {
        "-Clto=thin"@
    } else {
        "-Clto=off"@
    };
    seq![opt, lto] + (if m[4] {
        seq!["-Ctarget-features=+avx2,+fma"@]
    } else {
        Seq::empty()
    }) + (if m[5] {
        seq!["-Ctarget-cpu=native"@]
    } else {
        Seq::empty()
    })
}

/// Whether `d` is what measurement `m` stands for on a machine with `cpus`
/// processors: the flags above; bit 6 aligns to cache lines (else to
/// pages), bit 7 prefetches 64 bytes ahead (else 32), bit 8 optimises for
/// cache lines, bit 9 spreads over two NUMA nodes (else one); every core
/// is used, by all of them with bit 10 (else half), work-stealing with bit
/// 11 (else round robin), all at priority 0; bits 12 to 14 tune the three
/// cache levels, and bit 15 prefetches aggressively (else conservatively).
pub open spec fn decodes(m: Seq<bool>, cpus: usize, d: DecodedSettings) -> bool {
    &&& d.compiler_flags@.map_values(|f: String| f@) == decoded_flags(m)
    &&& d.memory_layout.alignment_strategy == if m[6] {
        AlignmentStrategy::CacheLine
    } else {
        AlignmentStrategy::PageBoundary
    }
    &&& d.memory_layout.prefetch_distance == if m[7] {
        64usize
    } else {
        32usize
    }
    &&& d.memory_layout.cache_line_optimization == m[8]
    &&& d.memory_layout.numa_affinity@ == if m[9] {
        seq![0usize, 1usize]
    } else {
        seq![0usize]
    }
    &&& d.threading_strategy.core_affinity@ == Seq::new(cpus as nat, |i: int| i as usize)
    &&& d.threading_strategy.thread_count == if m[10] {
        cpus
    } else {
        (cpus / 2) as usize
    }
    &&& d.threading_strategy.scheduling_policy == if m[11] {
        SchedulingPolicy::WorkStealing
    } else {
        SchedulingPolicy::RoundRobin
    }
    &&& d.threading_strategy.priority_levels@ == Seq::new(cpus as nat, |i: int| 0i32)
    &&& d.cache_configuration == CacheConfiguration {
        l1_optimization: m[12],
        l2_optimization: m[13],
        l3_optimization: m[14],
        prefetch_strategy: if m[15] {
            PrefetchStrategy::Aggressive
        } else {
            PrefetchStrategy::Conservative
        },
    }
}

/// The settings measurement `measurement` stands for on a machine with
/// `cpus` processors.
pub fn decode_measurement_for(measurement: &Vec<bool>, cpus: usize) -> (d: DecodedSettings)
    requires
        measurement@.len() >= MEASUREMENT_BITS,
    ensures
        decodes(measurement@, cpus, d),
{
    let m = measurement;
    let mut compiler_flags: Vec<String> = Vec::new();
    let opt = if m[0] && m[1] {
        "-Copt-level=3"
    } else if m[0] {
        "-Copt-level=2"
    } else {
        "-Copt-level=1"
    };
    compiler_flags.push(String::from_str(opt));
    let lto = if m[2] && m[3] {
        "-Clto=fat"
    } else if m[2] {
        "-Clto=thin"
    } else {
        "-Clto=off"
    };
    compiler_flags.push(String::from_str(lto));
    let ghost base = compiler_flags@.map_values(|f: String| f@);
    assert(base =~= seq![opt@, lto@]);
    if m[4] {
        compiler_flags.push(String::from_str("-Ctarget-features=+avx2,+fma"));
    }
    let ghost with_simd = compiler_flags@.map_values(|f: String| f@);
    assert(with_simd =~= base + (if m@[4] {
        seq!["-Ctarget-features=+avx2,+fma"@]
    } else {
        Seq::<Seq<char>>::empty()
    }));
    if m[5] {
        compiler_flags.push(String::from_str("-Ctarget-cpu=native"));
    }
    assert(compiler_flags@.map_values(|f: String| f@) =~= with_simd + (if m@[5] {
        seq!["-Ctarget-cpu=native"@]
    } else {
        Seq::<Seq<char>>::empty()
    }));
    assert(compiler_flags@.map_values(|f: String| f@) =~= decoded_flags(m@));

    let memory_layout = MemoryLayoutConfig {
        alignment_strategy: if m[6] {
            AlignmentStrategy::CacheLine
        } else {
            AlignmentStrategy::PageBoundary
        },
        prefetch_distance: if m[7] {
            64
        } else {
            32
        },
        cache_line_optimization: m[8],
        numa_affinity: if m[9] {
            vec![0, 1]
        } else {
            vec![0]
        },
    };
    assert(memory_layout.numa_affinity@ =~= if m@[9] {
        seq![0usize, 1usize]
    } else {
        seq![0usize]
    });

    let mut core_affinity: Vec<usize> = Vec::new();
    let mut priority_levels: Vec<i32> = Vec::new();
    let mut i: usize = 0;
    while i < cpus
        invariant
            i <= cpus,
            core_affinity@ == Seq::new(i as nat, |k: int| k as usize),
            priority_levels@ == Seq::new(i as nat, |k: int| 0i32),
        decreases cpus - i,
    {
        core_affinity.push(i);
        priority_levels.push(0);
        i = i + 1;
        assert(core_affinity@ =~= Seq::new(i as nat, |k: int| k as usize));
        assert(priority_levels@ =~= Seq::new(i as nat, |k: int| 0i32));
    }
    let threading_strategy = ThreadingStrategy {
        core_affinity,
        thread_count: if m[10] {
            cpus
        } else {
            cpus / 2
        },
        scheduling_policy: if m[11] {
            SchedulingPolicy::WorkStealing
        } else {
            SchedulingPolicy::RoundRobin
        },
        priority_levels,
    };
    let cache_configuration = CacheConfiguration {
        l1_optimization: m[12],
        l2_optimization: m[13],
        l3_optimization: m[14],
        prefetch_strategy: if m[15] {
            PrefetchStrategy::Aggressive
        } else {
            PrefetchStrategy::Conservative
        },
    };
    DecodedSettings { compiler_flags, memory_layout, threading_strategy, cache_configuration }
}

/// The settings measurement `measurement` stands for on this machine.
pub fn decode_measurement(measurement: &Vec<bool>) -> (d: DecodedSettings)
    requires
        measurement@.len() >= MEASUREMENT_BITS,
    ensures
        exists|cpus: usize| cpus >= 1 && #[trigger] decodes(measurement@, cpus, d),
{
    let cpus = processor_count();
    decode_measurement_for(measurement, cpus)
}

} // verus!
