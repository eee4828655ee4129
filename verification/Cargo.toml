[package]
name = "rutabaga_gfx"
version = "0.1.0"
edition = "2021"
publish = false

[dependencies]
libc = "0.2"
log = "0.4"
mesa3d_util = "*"
rustix = { version = "*", features = ["mm"] }
serde_json = "1"
zerocopy = { version = "0.8", features = ["derive"] }
