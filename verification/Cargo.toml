[package]
name = "axum_xml"
version = "0.1.0"
edition = "2021"
publish = false

[dependencies]
mime = "0.3"
serde = "1"
quick-xml = { version = "*", features = ["serialize"] }
axum-core = "0.3"
async-trait = "0.1"
bytes = "1"
http = "0.2"
http-body = "0.4"
