[package]
name = "raft_diag"
version = "0.1.0"
edition = "2021"
publish = false

[dependencies]
bytes = "1"
lazy_static = "1"
raft-proto = "0.7"
slog = "2"
