[package]
name = "kget"
version = "0.1.0"
edition = "2021"
publish = false

[dependencies]
hex = "*"
sha2 = "*"
flate2 = "*"
lz4 = "*"
brotli = "*"
url = "*"
mime = "*"
humansize = "*"
reqwest = { version = "*", default-features = false, features = ["blocking"] }
serde = { version = "*", features = ["derive"] }
serde_json = "*"
dirs = "*"
fs2 = "*"
indicatif = "*"
suppaftp = "*"
rustyline = "*"
clap = { version = "*", features = ["derive"] }
socks = "*"
tokio = { version = "*", features = ["rt-multi-thread", "time"] }
transmission-rpc = "*"
ssh2 = "*"
rayon = "*"
