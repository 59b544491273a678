[package]
name = "action_log"
version = "0.1.0"
edition = "2021"
publish = false

[dependencies]
dirs = "*"
druid = { version = "0.7", features = ["im"] }
im = "15"
lazy_static = "1"
rand = "0.8"
