[package]
name = "lestinia_common"
version = "0.1.0"
edition = "2021"
publish = false

[dependencies]
bincode = "1"
mio = "0.6"
mio-extras = "2.0"
serde = { version = "1", features = ["derive"] }
