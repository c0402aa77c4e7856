[package]
name = "base"
version = "0.1.0"
edition = "2021"
publish = false

[dependencies]
prost = "=0.8.0"
ed25519-dalek = "=1.0.1"
x25519-dalek = "=1.2.0"
rand_core = { version = "=0.5.1", features = ["getrandom"] }
orion = "=0.16.1"
chrono = "=0.4.45"
anyhow = "=1.0.104"
bytes = "=1.12.1"
tokio = { version = "=1.54.1", features = ["full"] }
tonic = { version = "=0.5.2", features = ["compression"] }
http = "=0.2.12"
futures-core = "=0.3.34"
xactor = { version = "=0.7.11", default-features = false, features = ["runtime-tokio"] }
config = { version = "=0.11.0", default-features = false, features = ["toml"] }
async-trait = "=0.1.92"
log = "=0.4.35"
clap = "=2.34.0"
serde = { version = "=1.0.229", features = ["derive"] }
fnv = "=1.0.7"
