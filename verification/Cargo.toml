[package]
name = "mirl_minifb"
version = "0.1.0"
edition = "2021"
publish = false

[dependencies]
minifb = "=0.28.0"
raw-window-handle = "=0.6.2"
