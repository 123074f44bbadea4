[package]
name = "anita"
version = "0.1.0"
edition = "2021"
publish = false

[dependencies]
aes-gcm = "0.10"
argon2 = "0.5"
chrono = "0.4"
clap = { version = "4", features = ["derive", "env"] }
diesel = { version = "2", default-features = false, features = ["postgres_backend", "chrono"] }
diesel-async = { version = "*", features = ["postgres", "bb8"] }
dotenvy = "0.15"
eyre = "0.6"
hex = "0.4"
rayon = "1"
serde = { version = "1", features = ["derive"] }
serde_json = "1"
solana-sdk = "1.18"
strum = { version = "*", features = ["derive"] }
tokio = { version = "1", features = ["rt-multi-thread", "macros"] }
