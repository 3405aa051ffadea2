[package]
name = "how"
version = "0.1.0"
edition = "2021"
publish = false

[dependencies]
anyhow = "*"
directories = "*"
llama-cpp-2 = "*"
llama-cpp-sys-2 = "*"
