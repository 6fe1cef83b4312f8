[package]
name = "sonic_spectra"
version = "0.1.0"
edition = "2021"
publish = false

[dependencies]
cpal = "*"
futures = "*"
gtk4 = "*"
rustfft = "*"
serde = { version = "*", features = ["derive"] }
tokio = { version = "*", features = ["full"] }
toml = "*"
