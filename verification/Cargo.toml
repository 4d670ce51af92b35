[package]
name = "gnyprland"
version = "0.1.0"
edition = "2021"
publish = false

[dependencies]
smol = "2"
serde = { version = "1", features = ["derive"] }
serde_json = "1"
clap = { version = "4", features = ["derive"] }
log = "0.4"
simple_logger = "*"
ctrlc = "3"
time = { version = "0.3", features = ["macros"] }
chrono = "0.4"
relm4 = "*"
gtk4-layer-shell = "*"
zbus = "*"
notify = "*"
