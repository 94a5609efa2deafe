[package]
name = "rsrl"
version = "0.1.0"
edition = "2021"
publish = false

[dependencies]
rand = "=0.6.5"
lfa = "=0.12.1"
spaces = "=4.7.1"
ndarray = "=0.12.1"
ndarray-linalg = "=0.10.0"
special-fun = "*"
serde = { version = "=1.0.229", features = ["derive"] }
bincode = "=1.3.3"
clap = "=2.34.0"
csv = "=1.4.0"
