pub mod optimization;
pub mod lock_free;
pub mod error_recovery;
pub mod compiler_optimization;
pub mod simd_ops;
pub mod gpu_acceleration;
pub mod memory_optimization;
pub mod rtp_optimization;
pub mod capture;
pub mod encoder;
pub mod moonlight;
pub mod advanced_networking;
pub mod health_server;
pub mod sunshine;
pub mod quantum_optimization;
pub mod audio;
