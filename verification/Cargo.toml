[package]
name = "riff_player"
version = "0.1.0"
edition = "2021"
publish = false

[dependencies]
tokio = { version = "1", features = ["rt", "net", "io-util", "time", "sync", "macros"] }
futures = "0.3"
secret-service = { version = "*", features = ["rt-tokio-crypto-rust"] }
oauth2 = { version = "*", default-features = false }
reqwest = { version = "*", default-features = false, features = ["rustls-tls"] }
url = "2"
open = "*"
discord-rich-presence = "*"
libc = "0.2"
