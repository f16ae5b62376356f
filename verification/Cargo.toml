[package]
name = "macaroni"
version = "0.1.0"
edition = "2021"
publish = false

[dependencies]
uuid = { version = "1", features = ["v4"] }
serde = { version = "1", features = ["derive"] }
serde_json = "1"
libc = "0.2"
nix = "0.29"
tokio = { version = "1", features = ["rt-multi-thread", "macros", "sync"] }
tonic = { version = "0.12", default-features = false }
ctor = "0.2"
syn = { version = "2", features = ["full"] }
quote = "1"
proc-macro2 = "1"
