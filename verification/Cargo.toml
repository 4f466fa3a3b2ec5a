[package]
name = "rufendec"
version = "0.1.0"
edition = "2021"
publish = false

[dependencies]
aes-gcm = "=0.11.1"
argon2 = "=0.6.0"
byte-aes = "=0.2.2"
chrono = "*"
clap = { version = "=4.6.7", features = ["derive"] }
file_shred = "=1.2.1"
pbkdf2 = "=0.13.0"
rayon = "=1.12.0"
rpassword = "=7.5.4"
sha2 = "=0.11.0"
walkdir = "=2.5.0"
zeroize = "=1.9.1"
