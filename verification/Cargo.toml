[package]
name = "mmtk_art"
version = "0.1.0"
edition = "2021"
publish = false

[dependencies]
android_logger = "0.15.1"
lazy_static = "1.5.1"
libc = "0.2.191"
log = "0.4.35"
memoffset = "0.9.1"
