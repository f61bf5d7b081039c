[package]
name = "voltage_modbus"
version = "0.1.0"
edition = "2021"
publish = false

[dependencies]
async-trait = "0.1"
env_logger = "0.10"
log = "0.4"
tokio = { version = "1", features = ["net", "io-util", "time", "rt-multi-thread", "macros", "signal", "sync"] }
tokio-serial = "5.4"
