[package]
name = "migrator"
version = "0.1.0"
edition = "2021"
publish = false

[dependencies]
regex = "1"
log = "0.4"
nix = { version = "*", features = ["fs"] }
mod_logger = "*"
