[package]
name = "fitnesstrax_core"
version = "0.1.0"
edition = "2021"
publish = false

[dependencies]
chrono = "=0.4.45"
chrono-tz = "=0.4.1"
dimensioned = "=0.7.0"
emseries = "=0.5.1"
fluent = "=0.9.1"
gio = "=0.8.1"
glib = "=0.9.3"
serde = { version = "=1.0.229", features = ["derive"] }
serde_yaml = "=0.8.26"
unic-langid = "=0.7.1"
