[package]
name = "pgs_decoder"
version = "0.1.0"
edition = "2021"
publish = false

[dependencies]
anyhow = "=1.0.104"
byteorder = "=1.5.0"
chrono = "=0.4.45"
clap = { version = "=4.6.7", features = ["derive"] }
log = "=0.4.34"
profiling = "=1.0.18"
puffin = { version = "=0.20.0", features = ["serialization"] }
simple_logger = "=5.2.0"
snafu = "=0.9.2"
subparse = "=0.7.0"
tracking-allocator = "=0.4.0"
