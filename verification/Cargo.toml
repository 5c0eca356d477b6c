[package]
name = "libtailscale"
version = "0.2.0"
edition = "2021"
publish = false

[dependencies]
hyper = { version = "0.14", default-features = false, features = ["server", "http1"] }
log = "0.4"
nix = "0.26"
thiserror = "1"
tokio = { version = "1", default-features = false, features = ["rt", "net"] }
