[package]
name = "exosphere"
version = "0.1.0"
edition = "2021"
publish = false

[dependencies]
ringbuf = "0.4"
sha1 = "0.10"
base64 = "0.22"
bitcode = "0.6"
serde = { version = "1", features = ["derive"] }
serde_json = "1"
libc = "0.2"
crossbeam = "0.8"
num-traits = "0.2"
