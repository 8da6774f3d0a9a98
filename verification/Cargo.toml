[package]
name = "grid_node"
version = "0.1.0"
edition = "2021"
publish = false

[dependencies]
arraymap = "0.1"
nix = "0.26"
structopt = "0.3"
