[package]
name = "driptorch"
version = "0.1.0"
edition = "2021"
publish = false

[dependencies]
picky = "*"
chacha20poly1305 = "*"
ulid = "*"
rand = "*"
blake3 = "*"
base64ct = { version = "*", features = ["alloc"] }
argon2 = "*"
regex = "*"
zxcvbn = "*"
sea-orm = { version = "*", features = ["runtime-tokio-rustls", "sqlx-postgres"] }
tokio = { version = "*", features = ["rt-multi-thread", "macros"] }
dotenv = "*"
chrono = "*"
