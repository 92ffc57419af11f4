[package]
name = "makeup"
version = "0.1.0"
edition = "2021"
publish = false

[dependencies]
async-trait = "0.1"
either = "1"
eyre = "0.6"
fnv = "1"
libc = "0.2"
nix = { version = "0.27", features = ["fs", "poll", "signal", "term"] }
rand = "0.8"
taffy = "0.3"
thiserror = "1"
tokio = { version = "1", features = ["fs", "macros", "rt", "rt-multi-thread", "sync", "time"] }
