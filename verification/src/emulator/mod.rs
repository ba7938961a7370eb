pub mod config;
pub mod process;
