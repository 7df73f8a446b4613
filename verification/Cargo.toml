[package]
name = "sysmaster_core"
version = "0.1.0"
edition = "2021"
publish = false

[dependencies]
fnmatch-regex = "=0.3.2"
siphasher = "=1.0.4"
nix = { version = "=0.31.3", features = ["fs"] }
