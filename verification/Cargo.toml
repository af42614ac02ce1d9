[package]
name = "quick_xml_nif"
version = "0.1.0"
edition = "2021"
publish = false

[dependencies]
quick-xml = { version = "=0.31.0", features = ["serialize"] }
serde_json = "=1.0.154"
rustler = "=0.34.0"
