[package]
name = "scratch_server"
version = "0.1.0"
edition = "2021"
publish = false

[dependencies]
base64 = "0.22"
chrono = "0.4"
clap = "4"
flate2 = "1"
mime_guess = "2"
native-tls = "0.2"
percent-encoding = "2"
regex = "1"
serde = { version = "1", features = ["derive"] }
serde_json = "1"
sha1 = "0.10"
termcolor = "1"
