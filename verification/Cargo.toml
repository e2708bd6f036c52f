[package]
name = "ripped"
version = "0.1.0"
edition = "2021"
publish = false

[dependencies]
peppi = "*"
glob = "*"
anyhow = "*"
color-backtrace = "*"

[dependencies.eframe]
version = "*"
default-features = false
features = ["glow", "x11", "default_fonts"]

[dependencies.rusqlite]
version = "*"
features = ["bundled"]
