[package]
name = "bl_soc"
version = "0.1.0"
edition = "2021"
publish = false

[dependencies]
sha2 = "0.10"
clap = { version = "4", features = ["derive"] }
base-address = "*"
embedded-hal = "=1.0.0-alpha.10"
embedded-time = "0.12"
