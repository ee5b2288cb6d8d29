[package]
name = "server_list_ping"
version = "0.1.0"
edition = "2021"
publish = false

[dependencies]
base64 = "0.13"
clap = { version = "4", features = ["derive"] }
colored = "2"
mime = "0.3"
regex = "1"
serde = { version = "1", features = ["derive"] }
serde_json = "1"
termcolor = "1"
trust-dns-resolver = { version = "0.22", features = ["dns-over-rustls"] }
url = "2"
uuid = { version = "1", features = ["serde"] }
