[package]
name = "pyembed"
version = "0.1.0"
edition = "2021"
publish = false

[dependencies]
python3-sys = "*"
