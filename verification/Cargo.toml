[package]
name = "chip8"
version = "0.1.0"
edition = "2021"
publish = false

[dependencies]
bytemuck = "=1.25.2"
rand_core = "=0.10.1"
rand = { version = "=0.10.3", features = ["chacha"] }
clap = { version = "=4.6.7", features = ["derive"] }
crossterm = "=0.29.0"
eyre = "=0.6.14"
flume = "=0.12.0"
thiserror = "=2.0.21"
iced = { version = "=0.14.0", default-features = false, features = ["canvas", "tiny-skia", "x11", "thread-pool"] }
