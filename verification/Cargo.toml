[package]
name = "schematics-gui-reml"
version = "0.1.0"
edition = "2021"
publish = false

[dependencies]
chrono = "=0.4.45"
colors-transform = "=0.2.11"
convert_case = "=0.6.0"
is_executable = "=1.0.6"
regex = "=1.13.1"
relm4 = "=0.6.2"
relm4-icons = "=0.6.0"
serde = { version = "=1.0.229", features = ["derive"] }
serde_json = { version = "=1.0.154", features = ["preserve_order"] }
serde_with = "=3.24.0"
sourceview5 = "=0.6.1"
strip-ansi-escapes = "=0.2.1"
toml = "=0.7.8"
tracker = "=0.2.3"
