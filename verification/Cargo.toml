[package]
name = "matrix_rpg_net"
version = "0.1.0"
edition = "2021"
publish = false

[dependencies]
rand = "0.8"
crossbeam-channel = "0.5"
clap = { version = "4", features = ["derive"] }
serde = { version = "1", features = ["derive"] }
ron = "0.8"
