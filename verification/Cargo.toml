[package]
name = "epi_ingest"
version = "0.1.0"
edition = "2021"
publish = false

[dependencies]
calamine = "*"
chrono = "0.4"
clap = { version = "4", features = ["derive"] }
imap = "2"
mail-parser = "*"
native-tls = "0.2"
oauth2 = "4"
serde = { version = "1", features = ["derive"] }
serde_json = "1"
