[package]
name = "dabba"
version = "0.1.0"
edition = "2021"
publish = false

[dependencies]
flate2 = "1"
libc = "0.2"
log = "0.4"
nix = { version = "0.27", features = ["dir", "fs", "hostname", "mount", "poll", "process", "sched", "signal", "user"] }
serde = { version = "1", features = ["derive"] }
serde_json = "1"
tar = "0.4"
ureq = { version = "2", features = ["json"] }
