[package]
name = "trangarcom"
version = "0.1.0"
edition = "2021"
publish = false

[dependencies]
uuid = { version = "=1.29.0", features = ["v4"] }
chrono = "=0.4.45"
pulldown-cmark = "=0.9.6"
tide = "=0.16.0"
async-std = { version = "=1.13.2", features = ["attributes"] }
clap = { version = "=4.6.7", features = ["derive"] }
askama = "=0.12.1"
diesel = { version = "=2.3.14", features = ["postgres", "uuid", "chrono"] }
rusoto_core = { version = "=0.48.0", default-features = false, features = ["rustls"] }
rusoto_dynamodb = { version = "=0.48.0", default-features = false, features = ["rustls"] }
tokio = { version = "=1.54.1", features = ["rt", "net", "time"] }
