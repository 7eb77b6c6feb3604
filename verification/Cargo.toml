[package]
name = "path_abs"
version = "0.1.0"
edition = "2021"
publish = false

[dependencies]
std_prelude = "0.2"
walkdir = "2"
