[package]
name = "llvm_types"
version = "0.1.0"
edition = "2021"
publish = false

[dependencies]
anyhow = "=1.0.104"
derive_more = "=0.99.20"
libc = "=0.2.191"
llvm-sys = { version = "=100.2.4", features = ["no-llvm-linking"] }
