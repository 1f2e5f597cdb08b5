[package]
name = "yazz"
version = "0.1.0"
edition = "2021"
publish = false

[dependencies]
clap = "2.33"
cpal = "0.11"
crossbeam-channel = "0.4"
failure = "0.1"
flexi_logger = "0.15"
log = "0.4"
midir = "0.6"
num = "0.2"
rand = "0.7"
serde = { version = "1.0", features = ["derive"] }
serde_json = "1.0"
term_cursor = "0.2"
termion = "1.5"
