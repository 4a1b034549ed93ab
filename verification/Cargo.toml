[package]
name = "cs_mutex"
version = "0.1.0"
edition = "2021"
publish = false

[dependencies]
cortex-m = "0.7"
riscv = "0.7"
mutex-trait = "0.2"
