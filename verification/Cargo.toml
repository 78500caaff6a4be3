[package]
name = "rfnoc_tool"
version = "0.1.0"
edition = "2021"
publish = false

[dependencies]
zerocopy = { version = "0.7", features = ["derive"] }
bytemuck = { version = "1", features = ["derive"] }
rtrb = "0.3"
async-channel = "2"
crossbeam = "0.8"
serde = { version = "1", features = ["derive"] }
serde_json = "1"
serde_yaml = "0.9"
csv = "1"
hdf5 = "0.8"
thiserror = "1"
async-trait = "0.1"
smol = "2"
tokio = { version = "1", features = ["full"] }
dashmap = "5"
parking_lot = "0.12"
tracing = "0.1"
tracing-subscriber = { version = "0.3", features = ["env-filter"] }
clap = { version = "4", features = ["derive"] }
colored = "2"
console = "0.15"
indicatif = "0.17"
prettytable-rs = "0.10"
rustyline = "12"
rustyline-derive = "0.9"
ctrlc = "3"
cxx = "1"
