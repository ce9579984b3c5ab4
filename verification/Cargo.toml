[package]
name = "quick_deploy"
version = "0.1.0"
edition = "2021"
publish = false

[dependencies]
anyhow = "1"
base64 = "0.13"
fastly = "*"
parity-wordlist = "1"
sealed_box = "*"
serde = { version = "1", features = ["derive"] }
serde_json = "1"
tinytemplate = "1"
toml = "0.5"
toml_edit = "0.2"
