//! Input from streaming clients, turned into emulator controller commands.

pub mod dolphin;
pub mod mapping;
pub mod processor;
pub mod session;
