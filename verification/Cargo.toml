[package]
name = "knbackup"
version = "0.1.0"
edition = "2021"
publish = false

[dependencies]
serde_urlencoded = "=0.7.1"
chrono = { version = "=0.4.45", features = ["serde"] }
reqwest = { version = "=0.11.27", default-features = false, features = ["json", "rustls-tls"] }
tokio = { version = "=1.53.2", features = ["macros", "rt-multi-thread", "time"] }
clap = { version = "=4.6.7", features = ["derive", "env"] }
serde = { version = "=1.0.229", features = ["derive"] }
toml = "=0.8.23"
dirs = "=5.0.1"
filetime = "=0.2.29"
log = "=0.4.34"
log4rs = "=1.4.0"
image = "=0.24.9"
imageproc = "=0.23.1"
rusttype = "=0.9.3"
little_exif = "=0.6.23"
