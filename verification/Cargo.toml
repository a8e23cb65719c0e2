[package]
name = "rloop_ssl"
version = "0.1.0"
edition = "2021"
publish = false

[dependencies]
rustls = { version = "0.23", default-features = false, features = ["ring", "std", "logging", "tls12"] }
rcgen = "0.13"
mio = { version = "1", features = ["net", "os-poll"] }
socket2 = "0.5"
pyo3 = "0.25"
log = "0.4"
anyhow = "1"
