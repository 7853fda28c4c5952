[package]
name = "fpga_runner_jit"
version = "0.1.0"
edition = "2021"
publish = false

[dependencies]
chrono = "=0.4.45"
rand = "=0.9.5"
jsonwebtoken = "=9.3.1"
octocrab = "=0.47.1"
tokio = { version = "=1.53.2", features = ["rt-multi-thread", "macros"] }
clap = { version = "=4.6.7", features = ["derive"] }
