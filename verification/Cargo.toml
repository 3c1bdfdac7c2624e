[package]
name = "mppatch_core"
version = "0.1.0"
edition = "2021"
publish = false

[dependencies]
anyhow = "*"
dlopen = "*"
libc = "*"
log = "*"
mlua = { version = "*", features = ["lua51", "vendored"] }
