//! Compiler flag selection: the `RUSTFLAGS` that the build of the server
//! is optimized with.

use crate::text::{append_decimal, decimal, join, joined};
use vstd::prelude::*;
use vstd::string::*;

verus! {

/// Settings of the BOLT binary optimizer.
#[derive(Debug, Clone, Copy, PartialEq, Eq)]
pub struct BoltConfig {
    pub enable_bolt: bool,
    pub perf_data_collection: bool,
    /// 0 to 3.
    pub optimization_level: u8,
    pub split_functions: bool,
    pub reorder_blocks: bool,
    pub optimize_branches: bool,
    pub eliminate_unreachable: bool,
}

/// Optimization level of the compiler.
#[derive(Debug, Clone, Copy, PartialEq, Eq)]
pub enum OptimizationLevel {
    /// `-O0`.
    Debug,
    /// `-Os`.
    Size,
    /// `-O2`.
    Speed,
    /// `-O3`.
    Aggressive,
    /// `-O3` and LLVM's own `-O3`.
    Native,
}

/// Link-time optimization mode.
#[derive(Debug, Clone, Copy, PartialEq, Eq)]
pub enum LtoConfig {
    Disabled,
    Thin,
    Full,
    ThinLocal,
}

/// Stages of the complete optimization pipeline.
#[derive(Debug, Clone, Copy, PartialEq, Eq)]
pub struct OptimizationPipeline {
    pub enable_quantum_optimization: bool,
    pub parallel_optimization: bool,
    pub validation_enabled: bool,
    pub max_iterations: usize,
}

/// The flags that select an optimization level.
pub open spec fn level_flags(level: OptimizationLevel) -> Seq<Seq<char>> {
    match level {
        OptimizationLevel::Debug => seq!["-Copt-level=0"@],
        OptimizationLevel::Size => seq!["-Copt-level=s"@],
        OptimizationLevel::Speed => seq!["-Copt-level=2"@],
        OptimizationLevel::Aggressive => seq!["-Copt-level=3"@],
        OptimizationLevel::Native => seq!["-Copt-level=3"@, "-Cllvm-args=-O3"@],
    }
}

/// The flag that selects a link-time optimization mode.
pub open spec fn lto_flag(lto: LtoConfig) -> Seq<char> {
    match lto {
        LtoConfig::Disabled => "-Clto=off"@,
        LtoConfig::Thin => "-Clto=thin"@,
        LtoConfig::Full => "-Clto=fat"@,
        LtoConfig::ThinLocal => "-Clto=thin-local"@,
    }
}

/// Flags added to every build.
pub open spec fn performance_flags() -> Seq<Seq<char>> {
    seq![
        "-Cpanic=abort"@,
        "-Cllvm-args=-enable-load-pre"@,
        "-Cllvm-args=-enable-block-placement"@,
        "-Cllvm-args=-enable-loop-vectorization"@,
        "-Cllvm-args=-enable-slp-vectorization"@,
        "-Cllvm-args=-inline-threshold=1000"@,
    ]
}

/// The flags in order: level, target CPU, target features (when there are
/// any, comma separated), LTO, codegen units, the fixed performance flags,
/// then the custom flags.
pub open spec fn flag_list(
    level: OptimizationLevel,
    cpu: Seq<char>,
    features: Seq<Seq<char>>,
    lto: LtoConfig,
    codegen_units: u32,
    custom: Seq<Seq<char>>,
) -> Seq<Seq<char>> {
    level_flags(level) + seq!["-Ctarget-cpu="@ + cpu] + (if features.len() == 0 {
        Seq::<Seq<char>>::empty()
    } else {
        seq!["-Ctarget-features="@ + joined(features, ","@)]
    }) + seq![lto_flag(lto), "-Ccodegen-units="@ + decimal(codegen_units as nat)]
        + performance_flags() + custom
}

/// Features used on every target.
pub open spec fn base_features() -> Seq<Seq<char>> {
    seq!["+sse4.2"@, "+avx"@, "+avx2"@, "+fma"@]
}

/// Features added on x86-64.
pub open spec fn x86_64_features() -> Seq<Seq<char>> {
    seq!["+bmi1"@, "+bmi2"@, "+lzcnt"@, "+popcnt"@]
}

/// The views of a list of strings.
pub open spec fn views(v: Seq<String>) -> Seq<Seq<char>> {
    v.map_values(|x: String| x@)
}

/// The processor architectures that the server's build choices tell apart.
#[derive(Debug, Clone, Copy, PartialEq, Eq)]
pub enum HostArch {
    X86_64,
    Aarch64,
    Other,
}

/// The architecture the server is built for (`target_lexicon`'s
/// `Architecture::host`). It depends on the build target: nothing is
/// claimed of it.
#[verifier::external_body]
pub(crate) fn host_architecture() -> (a: HostArch) {
    match target_lexicon::Architecture::host() {
        target_lexicon::Architecture::X86_64 => HostArch::X86_64,
        target_lexicon::Architecture::Aarch64(_) => HostArch::Aarch64,
        _ => HostArch::Other,
    }
}

/// Chooses compiler flags for the machine the server is built for.
pub struct CompilerFlagOptimizer {
    target_cpu: String,
    target_features: Vec<String>,
    optimization_level: OptimizationLevel,
    lto_config: LtoConfig,
    codegen_units: u32,
    custom_flags: Vec<String>,
}

impl CompilerFlagOptimizer {
    pub closed spec fn spec_target_cpu(&self) -> Seq<char> {
        self.target_cpu@
    }

    pub closed spec fn spec_features(&self) -> Seq<Seq<char>> {
        views(self.target_features@)
    }

    pub closed spec fn spec_level(&self) -> OptimizationLevel {
        self.optimization_level
    }

    pub closed spec fn spec_lto(&self) -> LtoConfig {
        self.lto_config
    }

    pub closed spec fn spec_codegen_units(&self) -> u32 {
        self.codegen_units
    }

    pub closed spec fn spec_custom(&self) -> Seq<Seq<char>> {
        views(self.custom_flags@)
    }

    /// An optimizer for the native CPU and the features of the build
    /// target, at the aggressive level with full LTO and one codegen unit.
    pub fn new() -> (o: Self)
        ensures
            o.spec_target_cpu() == "native"@,
            o.spec_features() == base_features() || o.spec_features() == base_features()
                + x86_64_features(),
            o.spec_level() == OptimizationLevel::Aggressive,
            o.spec_lto() == LtoConfig::Full,
            o.spec_codegen_units() == 1,
            o.spec_custom() == Seq::<Seq<char>>::empty(),
    {
        let target_cpu = Self::detect_target_cpu();
        let target_features = Self::detect_target_features();
        let custom_flags: Vec<String> = Vec::new();
        assert(views(custom_flags@) =~= Seq::<Seq<char>>::empty());
        CompilerFlagOptimizer {
            target_cpu,
            target_features,
            optimization_level: OptimizationLevel::Aggressive,
            lto_config: LtoConfig::Full,
            codegen_units: 1,
            custom_flags,
        }
    }

    /// The target CPU: always the native one.
    pub fn detect_target_cpu() -> (s: String)
        ensures
            s@ == "native"@,
    {
        String::from_str("native")
    }

    /// The target features for the build target.
    pub fn detect_target_features() -> (v: Vec<String>)
        ensures
            views(v@) == base_features() || views(v@) == base_features() + x86_64_features(),
    {
        let x86_64 = match host_architecture() {
            HostArch::X86_64 => true,
            _ => false,
        };
        Self::target_features_for(x86_64)
    }

    /// SSE4.2, AVX, AVX2 and FMA, and on x86-64 also BMI1, BMI2, LZCNT and
    /// POPCNT.
    pub fn target_features_for(x86_64: bool) -> (v: Vec<String>)
        ensures
            views(v@) == if x86_64 {
                base_features() + x86_64_features()
            } else {
                base_features()
            },
    {
        let mut features = vec![
            String::from_str("+sse4.2"),
            String::from_str("+avx"),
            String::from_str("+avx2"),
            String::from_str("+fma"),
        ];
        if x86_64 {
            features.push(String::from_str("+bmi1"));
            features.push(String::from_str("+bmi2"));
            features.push(String::from_str("+lzcnt"));
            features.push(String::from_str("+popcnt"));
        }
        assert(views(features@) =~= if x86_64 {
            base_features() + x86_64_features()
        } else {
            base_features()
        });
        features
    }

    /// The flags, space separated, as `RUSTFLAGS` takes them.
    pub fn generate_rustflags(&self) -> (s: String)
        ensures
            s@ == joined(
                flag_list(
                    self.spec_level(),
                    self.spec_target_cpu(),
                    self.spec_features(),
                    self.spec_lto(),
                    self.spec_codegen_units(),
                    self.spec_custom(),
                ),
                " "@,
            ),
    {
        let mut flags: Vec<String> = Vec::new();
        match self.optimization_level {
            OptimizationLevel::Debug => flags.push(String::from_str("-Copt-level=0")),
            OptimizationLevel::Size => flags.push(String::from_str("-Copt-level=s")),
            OptimizationLevel::Speed => flags.push(String::from_str("-Copt-level=2")),
            OptimizationLevel::Aggressive => flags.push(String::from_str("-Copt-level=3")),
            OptimizationLevel::Native => {
                flags.push(String::from_str("-Copt-level=3"));
                flags.push(String::from_str("-Cllvm-args=-O3"));
            },
        }
        let ghost after_level = views(flags@);
        let mut cpu = String::from_str("-Ctarget-cpu=");
        cpu.append(self.target_cpu.as_str());
        flags.push(cpu);
        let ghost after_cpu = views(flags@);
        if self.target_features.len() > 0 {
            let mut f = String::from_str("-Ctarget-features=");
            let joined_features = join(&self.target_features, ",");
            f.append(joined_features.as_str());
            flags.push(f);
        }
        let ghost after_features = views(flags@);
        match self.lto_config {
            LtoConfig::Disabled => flags.push(String::from_str("-Clto=off")),
            LtoConfig::Thin => flags.push(String::from_str("-Clto=thin")),
            LtoConfig::Full => flags.push(String::from_str("-Clto=fat")),
            LtoConfig::ThinLocal => flags.push(String::from_str("-Clto=thin-local")),
        }
        let mut units = String::from_str("-Ccodegen-units=");
        append_decimal(&mut units, self.codegen_units as u64);
        flags.push(units);
        let ghost after_units = views(flags@);
        flags.push(String::from_str("-Cpanic=abort"));
        flags.push(String::from_str("-Cllvm-args=-enable-load-pre"));
        flags.push(String::from_str("-Cllvm-args=-enable-block-placement"));
        flags.push(String::from_str("-Cllvm-args=-enable-loop-vectorization"));
        flags.push(String::from_str("-Cllvm-args=-enable-slp-vectorization"));
        flags.push(String::from_str("-Cllvm-args=-inline-threshold=1000"));
        let ghost after_fixed = views(flags@);
        let mut i: usize = 0;
        while i < self.custom_flags.len()
            invariant
                i <= self.custom_flags.len(),
                views(flags@) == after_fixed + views(self.custom_flags@).take(i as int),
            decreases self.custom_flags.len() - i,
        {
            let ghost before = flags@;
            let flag = self.custom_flags[i].clone();
            flags.push(flag);
            proof {
                assert(views(flags@) =~= views(before).push(flag@));
                assert(views(self.custom_flags@).take(i as int + 1) =~= views(
                    self.custom_flags@,
                ).take(i as int).push(self.custom_flags@[i as int]@));
                assert(views(flags@) =~= after_fixed + views(self.custom_flags@).take(
                    i as int + 1,
                ));
            }
            i = i + 1;
        }
        proof {
            assert(views(self.custom_flags@).take(self.custom_flags.len() as int) =~= views(
                self.custom_flags@,
            ));
            assert(after_level =~= level_flags(self.optimization_level));
            assert(after_fixed =~= after_units + performance_flags());
            assert(views(flags@) =~= flag_list(
                self.optimization_level,
                self.target_cpu@,
                views(self.target_features@),
                self.lto_config,
                self.codegen_units,
                views(self.custom_flags@),
            ));
        }
        join(&flags, " ")
    }

    /// Adds a flag at the end of the custom flags.
    pub fn add_custom_flag(&mut self, flag: String)
        ensures
            final(self).spec_custom() == old(self).spec_custom().push(flag@),
            final(self).spec_level() == old(self).spec_level(),
            final(self).spec_lto() == old(self).spec_lto(),
            final(self).spec_target_cpu() == old(self).spec_target_cpu(),
            final(self).spec_features() == old(self).spec_features(),
            final(self).spec_codegen_units() == old(self).spec_codegen_units(),
    {
        self.custom_flags.push(flag);
        assert(views(self.custom_flags@) =~= views(old(self).custom_flags@).push(flag@));
    }

    /// Sets the optimization level.
    pub fn set_optimization_level(&mut self, level: OptimizationLevel)
        ensures
            final(self).spec_level() == level,
            final(self).spec_custom() == old(self).spec_custom(),
            final(self).spec_lto() == old(self).spec_lto(),
            final(self).spec_target_cpu() == old(self).spec_target_cpu(),
            final(self).spec_features() == old(self).spec_features(),
            final(self).spec_codegen_units() == old(self).spec_codegen_units(),
    {
        self.optimization_level = level;
    }

    /// Sets the link-time optimization mode.
    pub fn set_lto_config(&mut self, config: LtoConfig)
        ensures
            final(self).spec_lto() == config,
            final(self).spec_custom() == old(self).spec_custom(),
            final(self).spec_level() == old(self).spec_level(),
            final(self).spec_target_cpu() == old(self).spec_target_cpu(),
            final(self).spec_features() == old(self).spec_features(),
            final(self).spec_codegen_units() == old(self).spec_codegen_units(),
    {
        self.lto_config = config;
    }
}

/// The `llvm-bolt` arguments that rewrite `binary` into `output` with the
/// profile at `profile`: the passes the settings ask for, then the level.
pub open spec fn bolt_args(config: BoltConfig, binary: Seq<char>, output: Seq<char>, profile: Seq<char>) -> Seq<Seq<char>> {
    seq![binary, "-o"@, output, "-data"@, profile] + (if config.split_functions {
        seq!["-split-functions"@]
    } else {
        Seq::empty()
    }) + (if config.reorder_blocks {
        seq!["-reorder-blocks=ext-tsp"@]
    } else {
        Seq::empty()
    }) + (if config.optimize_branches {
        seq!["-reorder-functions=hfsort+"@]
    } else {
        Seq::empty()
    }) + (if config.eliminate_unreachable {
        seq!["-eliminate-unreachable"@]
    } else {
        Seq::empty()
    }) + seq!["-O"@, decimal(config.optimization_level as nat)]
}

/// Appends `flag` when `on`.
fn push_if(v: &mut Vec<String>, on: bool, flag: &str)
    ensures
        final(v)@.map_values(|x: String| x@) == old(v)@.map_values(|x: String| x@) + (if on {
            seq![flag@]
        } else {
            Seq::empty()
        }),
{
    let ghost before = v@.map_values(|x: String| x@);
    if on {
        v.push(String::from_str(flag));
        assert(v@.map_values(|x: String| x@) =~= before + seq![flag@]);
    } else {
        assert(v@.map_values(|x: String| x@) =~= before + Seq::<Seq<char>>::empty());
    }
}

/// The arguments of the `llvm-bolt` run that optimises `binary` into
/// `output` with the profile at `profile`.
pub fn bolt_arguments(config: &BoltConfig, binary: &str, output: &str, profile: &str) -> (v: Vec<String>)
    ensures
        v@.map_values(|x: String| x@) == bolt_args(*config, binary@, output@, profile@),
{
    let mut v: Vec<String> = vec![
        String::from_str(binary),
        String::from_str("-o"),
        String::from_str(output),
        String::from_str("-data"),
        String::from_str(profile),
    ];
    assert(v@.map_values(|x: String| x@) =~= seq![binary@, "-o"@, output@, "-data"@, profile@]);
    push_if(&mut v, config.split_functions, "-split-functions");
    push_if(&mut v, config.reorder_blocks, "-reorder-blocks=ext-tsp");
    push_if(&mut v, config.optimize_branches, "-reorder-functions=hfsort+");
    push_if(&mut v, config.eliminate_unreachable, "-eliminate-unreachable");
    let ghost before = v@.map_values(|x: String| x@);
    v.push(String::from_str("-O"));
    let mut level = String::new();
    append_decimal(&mut level, config.optimization_level as u64);
    v.push(level);
    assert(v@.map_values(|x: String| x@) =~= before + seq!["-O"@, decimal(
        config.optimization_level as nat,
    )]);
    v
}

/// The compiler flags of a profile-guided build reading profiles from
/// `profile_dir`: the fixed optimisation flags and the profile; aggressive
/// inlining when some function is hot; block placement and loop
/// vectorisation when more than three paths are hot.
pub open spec fn pgo_flags(profile_dir: Seq<char>, has_hot_function: bool, hot_paths: nat) -> Seq<Seq<char>> {
    seq![
        "-Copt-level=3"@,
        "-Ctarget-cpu=native"@,
        "-Ctarget-features=+avx2,+fma,+sse4.2"@,
        "-Clto=fat"@,
        "-Ccodegen-units=1"@,
        "-Cpanic=abort"@,
        "-Cprofile-use="@ + profile_dir,
    ] + (if has_hot_function {
        seq!["-Cllvm-args=-inline-threshold=1000"@]
    } else {
        Seq::empty()
    }) + (if hot_paths > 3 {
        seq!["-Cllvm-args=-enable-block-placement"@, "-Cllvm-args=-enable-loop-vectorization"@]
    } else {
        Seq::empty()
    })
}

/// The compiler flags of a profile-guided build; whether a function passed
/// the hot threshold is given, as is the number of hot paths.
pub fn generate_optimized_flags(profile_dir: &str, has_hot_function: bool, hot_path_count: usize) -> (v: Vec<String>)
    ensures
        v@.map_values(|x: String| x@) == pgo_flags(profile_dir@, has_hot_function, hot_path_count as nat),
{
    let mut profile = String::from_str("-Cprofile-use=");
    profile.append(profile_dir);
    let mut v: Vec<String> = vec![
        String::from_str("-Copt-level=3"),
        String::from_str("-Ctarget-cpu=native"),
        String::from_str("-Ctarget-features=+avx2,+fma,+sse4.2"),
        String::from_str("-Clto=fat"),
        String::from_str("-Ccodegen-units=1"),
        String::from_str("-Cpanic=abort"),
        profile,
    ];
    assert(v@.map_values(|x: String| x@) =~= seq![
        "-Copt-level=3"@,
        "-Ctarget-cpu=native"@,
        "-Ctarget-features=+avx2,+fma,+sse4.2"@,
        "-Clto=fat"@,
        "-Ccodegen-units=1"@,
        "-Cpanic=abort"@,
        "-Cprofile-use="@ + profile_dir@,
    ]);
    push_if(&mut v, has_hot_function, "-Cllvm-args=-inline-threshold=1000");
    let ghost before = v@.map_values(|x: String| x@);
    if hot_path_count > 3 {
        v.push(String::from_str("-Cllvm-args=-enable-block-placement"));
        v.push(String::from_str("-Cllvm-args=-enable-loop-vectorization"));
        assert(v@.map_values(|x: String| x@) =~= before + seq![
            "-Cllvm-args=-enable-block-placement"@,
            "-Cllvm-args=-enable-loop-vectorization"@,
        ]);
    } else {
        assert(v@.map_values(|x: String| x@) =~= before + Seq::<Seq<char>>::empty());
    }
    v
}

} // verus!
