[package]
name = "shelly"
version = "0.1.0"
edition = "2021"
publish = false

[dependencies]
sha2 = "*"
tinytemplate = "*"
serde_json = "*"
serde = { version = "*", features = ["derive"] }
serde_derive = "*"
serde_yaml = "*"
clap = { version = "*", features = ["derive"] }
anyhow = "*"
os_pipe = "*"
walkdir = "*"
