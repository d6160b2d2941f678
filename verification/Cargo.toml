[package]
name = "embytes-buffer"
version = "0.1.0"
edition = "2021"
publish = false

[dependencies]
serde-json-core = { version = "0.6", default-features = false }
serde = { version = "1", default-features = false }
embedded-io = "0.6"
thiserror = { version = "2", default-features = false }
defmt = "0.3"
