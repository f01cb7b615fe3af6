[package]
name = "nirwizard"
version = "0.1.0"
edition = "2021"
publish = false

[dependencies]
hdf5 = "*"
serde = { version = "*", features = ["derive"] }
