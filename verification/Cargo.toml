[package]
name = "clip_reader"
version = "0.1.0"
edition = "2021"
publish = false

[dependencies]
url = "2"
jni = "0.19"
nativeshell_core = "*"
once_cell = "1"
