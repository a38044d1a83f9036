[package]
name = "grid_rotate"
version = "0.1.0"
edition = "2021"
publish = false

[dependencies]
papergrid = "0.7"
