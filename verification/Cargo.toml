[package]
name = "compress_bench"
version = "0.1.0"
edition = "2021"
publish = false

[dependencies]
brotli = "*"
libflate = "*"
lz4_flex = "*"
snap = "*"
zstd = "*"
base64 = "*"
clap = { version = "*", features = ["derive"] }
indicatif = "*"
