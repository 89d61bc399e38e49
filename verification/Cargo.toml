[package]
name = "core_challenges"
version = "0.1.0"
edition = "2021"
publish = false

[dependencies]
bincode = { version = "2", default-features = false, features = ["std"] }
hex = "0.4"
sha2 = "0.10"
rayon = "1"
tokio = { version = "1", features = ["net", "io-util", "rt-multi-thread", "macros", "time"] }
indicatif = "0.17"
sysinfo = "0.33"
tracing-subscriber = "0.3"
