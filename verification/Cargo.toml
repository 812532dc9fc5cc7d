[package]
name = "row_limit"
version = "0.1.0"
edition = "2021"
publish = false

[dependencies]
arrow = { version = "6", default-features = false }
async-trait = "0.1"
futures = "0.3"
serde = { version = "1", features = ["derive"] }
typetag = "0.1"
