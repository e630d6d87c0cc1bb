[package]
name = "sammy_lib"
version = "0.1.0"
edition = "2021"
publish = false

[dependencies]
aes-gcm = "=0.10.3"
argon2 = "=0.5.3"
base64 = "=0.22.1"
hkdf = "=0.12.4"
sha2 = "=0.10.9"
subtle = "=2.6.1"
rand = "=0.8.8"
rand_chacha = "=0.3.1"
hex = "=0.4.3"
uuid = { version = "=1.29.0", features = ["v4"] }
pdf-extract = "=0.7.12"
serde = { version = "=1.0.229", features = ["derive"] }
serde_json = "=1.0.154"
thiserror = "=1.0.69"
chrono = "=0.4.45"
rusqlite = { version = "=0.32.1", features = ["bundled-sqlcipher-vendored-openssl"] }
reqwest = { version = "=0.12.28", default-features = false, features = ["blocking"] }
zip = { version = "=2.6.1", default-features = false, features = ["deflate"] }
quick-xml = "=0.36.2"
log = "=0.4.35"
zeroize = "=1.9.1"
