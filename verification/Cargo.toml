[package]
name = "libfprint-rs"
version = "0.2.1"
edition = "2021"
publish = false

[dependencies]
glib = "0.18"
gio = "0.18"
