[package]
name = "conduit"
version = "0.1.0"
edition = "2021"
publish = false

[dependencies]
base64 = "*"
strip-ansi-escapes = "*"
uuid = { version = "*", features = ["v4"] }
portable-pty = "*"
libc = "*"
chrono = "*"
dirs = "*"
plist = "*"
rusqlite = { version = "*", features = ["bundled"] }
