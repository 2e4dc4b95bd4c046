[package]
name = "stracciatella"
version = "0.1.0"
edition = "2021"
publish = false

[dependencies]
getopts = "=0.2.24"
libc = "=0.2.191"
serde = "=1.0.229"
serde_json = { version = "=1.0.154", features = ["preserve_order"] }
