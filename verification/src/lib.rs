//! Verified core of the dpstream remote gaming server: data structures, wire
//! formats, configuration defaults and the decision logic of the streaming,
//! input, emulator and network layers.

pub mod clock;
pub mod emulator;
pub mod error;
pub mod health;
pub mod input;
pub mod network;
pub mod streaming;
pub mod text;
