[package]
name = "opendeck_power_profile"
version = "0.1.0"
edition = "2021"
publish = false

[dependencies]
dashmap = "6"
serde_json = "1"
openaction = "*"
tokio = { version = "1", features = ["macros", "rt-multi-thread", "sync", "time"] }
zbus = "5"
futures-util = "0.3"
async-trait = "0.1"
log = "0.4"
simplelog = "0.12"
thiserror = "2"
