[package]
name = "rlr"
version = "0.1.0"
edition = "2021"
publish = false

[dependencies]
glib = "0.18"
gtk = "0.18"
