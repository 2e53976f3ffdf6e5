[package]
name = "meff"
version = "0.1.0"
edition = "2021"
publish = false

[dependencies]
rand = "0.7"
serde = { version = "1", features = ["derive"] }
serde_json = "1"
local_ipaddress = "0.1"
get_if_addrs = "0.5"
rodio = "0.10"
clap = "2"
prettytable-rs = "0.8"
colored = "1"
