[package]
name = "dpstream"
version = "0.1.0"
edition = "2021"
publish = false

[dependencies]
anyhow = "=1.0.104"
arrayvec = "=0.7.8"
smallvec = { version = "=1.16.4", features = ["const_generics"] }
uuid = { version = "=1.29.0", features = ["v4"] }
num_cpus = "=1.17.0"
hostname = "=0.4.2"
raw-cpuid = "=11.6.0"
target-lexicon = "=0.12.16"
serde = { version = "=1.0.229", features = ["derive"] }
serde_json = "=1.0.154"
tokio = { version = "=1.54.1", features = ["full"] }
tracing = "=0.1.44"
tracing-subscriber = { version = "=0.3.23", features = ["env-filter", "json"] }
chrono = "=0.4.45"
dotenv = "=0.15.0"
thiserror = "=1.0.69"
hyper = { version = "=0.14.32", features = ["server", "http1", "tcp"] }
parking_lot = "=0.12.5"
slab = "=0.4.12"
bumpalo = "=3.20.3"
