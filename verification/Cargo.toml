[package]
name = "thermo_core"
version = "0.1.0"
edition = "2021"
publish = false

[dependencies]
csv = "*"
rayon = "*"
serde = { version = "*", features = ["derive"] }
serde_json = "*"
thiserror = "*"
