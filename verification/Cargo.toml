[package]
name = "pv_matter"
version = "0.1.0"
edition = "2021"
publish = false

[dependencies]
anyhow = "=1.0.104"
async-channel = "=2.5.0"
async-io = "=2.6.0"
dotenvy = "=0.15.7"
embassy-futures = "=0.1.2"
env_logger = "=0.11.11"
futures-lite = "=2.6.1"
log = "=0.4.35"
rand = "=0.10.3"
rumqttc = { version = "=0.25.1", default-features = false }
serde = { version = "=1.0.229", features = ["derive"] }
serde_json = { version = "=1.0.154", features = ["arbitrary_precision", "raw_value"] }
static_cell = "=2.1.1"
tokio = { version = "=1.54.1", features = ["rt-multi-thread", "macros", "signal", "time", "sync"] }
