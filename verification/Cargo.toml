[package]
name = "yaxpeax-core"
version = "0.1.0"
edition = "2021"
publish = false

[dependencies]
petgraph = "=0.8.3"
serde = { version = "=1.0.229", features = ["derive"] }
yaxpeax-arch = "=0.2.8"
yaxpeax-pic17 = "=0.1.1"
yaxpeax-x86 = "1.2.2"
