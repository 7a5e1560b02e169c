[package]
name = "riscv-zkvm-lib"
version = "0.1.0"
edition = "2021"
publish = false

[dependencies]
alloy-sol-types = "*"
clap = { version = "*", features = ["derive"] }
dotenv = "*"
sp1-zkvm = "*"
