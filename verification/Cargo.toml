[package]
name = "mentci_egui"
version = "0.1.0"
edition = "2021"
publish = false

[dependencies]
dark-light = "1"
egui = "0.27"
zbus = "3"
tokio = { version = "1", features = ["rt-multi-thread"] }
thiserror = "1"
