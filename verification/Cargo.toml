[package]
name = "rustdiscordapi"
version = "0.1.0"
edition = "2021"
publish = false

[dependencies]
reqwest = { version = "*", default-features = false, features = ["json"] }
serde_json = "*"
tokio = { version = "*", default-features = false, features = ["sync", "rt", "macros"] }
async-trait = "*"
dotenv = "*"
