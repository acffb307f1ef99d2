[package]
name = "tokio-curl"
version = "0.1.0"
edition = "2021"
publish = false

[dependencies]
curl = "0.4"
futures = "0.1"
libc = "0.2"
log = "0.4"
mio = "0.6"
scoped-tls = "0.1"
slab = "0.4"
tokio-core = "0.1"
