[package]
name = "pass"
version = "0.1.0"
edition = "2021"
publish = false

[dependencies]
regex = "1"
nix = { version = "*", features = ["user", "fs"] }
clap = { version = "4", features = ["derive"] }
terminal_size = "*"
