[package]
name = "yh"
version = "0.1.0"
edition = "2021"
publish = false

[dependencies]
scraper = "*"
clap = { version = "4", features = ["derive"] }
confy = "*"
main_error = "*"
reqwest = { version = "*", default-features = false, features = ["blocking"] }
serde = { version = "1", features = ["derive"] }
