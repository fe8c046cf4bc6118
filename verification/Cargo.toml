[package]
name = "amp"
version = "0.1.0"
edition = "2021"
publish = false

[dependencies]
ignore = "0.4"
tar = "0.4"
notify = "*"
clap = { version = "*", features = ["derive"] }
toml = "*"
tracing = "*"
ctrlc = "*"
thiserror = "*"
tabled = "*"
