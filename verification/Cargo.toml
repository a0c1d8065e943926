[package]
name = "actix-cbor"
version = "0.2.0"
edition = "2021"
publish = false

[dependencies]
actix-web = { version = "4", default-features = false, features = ["compress-gzip"] }
futures-util = "0.3"
log = "0.4"
mime = "0.3"
serde = "1"
serde_cbor = "0.11"
