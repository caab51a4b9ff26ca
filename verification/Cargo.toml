[package]
name = "ink_aa"
version = "0.1.0"
edition = "2021"
publish = false

[dependencies]
ink = { version = "4", default-features = false, features = ["std"] }
parity-scale-codec = { version = "3", default-features = false, features = ["std", "derive"] }
scale-info = { version = "2", default-features = false, features = ["std", "derive"] }
num-traits = "0.2"
serde = { version = "1", features = ["derive"] }
tokio = { version = "1", features = ["rt-multi-thread", "macros"] }
anyhow = "1"
xflags = "0.3"
xshell = "0.2"
