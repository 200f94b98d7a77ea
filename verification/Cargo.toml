[package]
name = "capbridge"
version = "0.1.0"
edition = "2021"
publish = false

[dependencies]
base64 = "=0.13.1"
md-5 = "=0.10.6"
sha1 = "=0.10.7"
sha2 = "=0.10.9"
sha3 = "=0.10.9"
rand = "=0.8.8"
ldap3 = { version = "=0.11.5", default-features = false, features = ["sync"] }
scraper = { version = "=0.19.1", features = ["deterministic"] }
serde_json = "=1.0.151"
reqwest = { version = "=0.12.28", default-features = false, features = ["blocking"] }
mysql = { version = "=28.0.3", default-features = false, features = ["minimal-rust"] }
