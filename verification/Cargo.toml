[package]
name = "rewinder"
version = "0.1.0"
edition = "2021"
publish = false

[dependencies]
base64 = "0.22"
chacha20poly1305 = "0.10"
image = { version = "0.25", default-features = false, features = ["jpeg"] }
keytar = "*"
mouse_position = "*"
rand = "0.8"
rdev = "*"
rusqlite = { version = "*", features = ["bundled"] }
serde_json = "1"
tokio = { version = "1", features = ["rt-multi-thread", "time", "macros"] }
xcap = "*"
