[package]
name = "shellm"
version = "0.1.0"
edition = "2021"
publish = false

[dependencies]
clap = { version = "4", features = ["derive"] }
encoding_rs = "0.8"
llama-cpp-2 = "0.1"
num_cpus = "1"
