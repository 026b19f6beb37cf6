[package]
name = "dra"
version = "0.1.0"
edition = "2021"
publish = false

[dependencies]
wildmatch = "2"
serde = { version = "1", features = ["derive"] }
serde_json = "1"
clap = { version = "4", features = ["derive"] }
ctrlc = "3"
dialoguer = "0.11"
flate2 = "1"
tar = "0.4"
tempfile = "3"
ureq = { version = "3", features = ["json"] }

[dev-dependencies]
tempfile = "3"
