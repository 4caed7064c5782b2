[package]
name = "staking-miner"
version = "0.1.0"
edition = "2021"
publish = false

[dependencies]
parity-scale-codec = "=3.7.5"
sp-core = "=43.0.0"
sp-crypto-hashing = "=0.1.0"
sp-runtime = "=49.0.0"
sp-npos-elections = "=44.0.0"
frame-support = "=49.0.0"
log = "=0.4.34"
tokio = { version = "=1.54.1", features = ["macros", "rt-multi-thread", "sync"] }
