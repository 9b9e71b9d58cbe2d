[package]
name = "tabula"
version = "0.1.0"
edition = "2021"
publish = false

[dependencies]
anyhow = "=1.0.104"
jni = { version = "=0.19.0", features = ["invocation"] }
libc = "=0.2.191"
tempfile = "=3.27.0"

[dev-dependencies]
rustix = { version = "=1.1.5", features = ["fs", "process"] }
