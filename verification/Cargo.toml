[package]
name = "adelie"
version = "0.1.0"
edition = "2021"
publish = false

[dependencies]
url = "2"
toml_edit = "0.19"
serde = { version = "1", features = ["derive"] }
serde_yaml = "0.9"
tokio = { version = "1", features = ["macros", "rt-multi-thread"] }
futures = "0.3"
color-eyre = "0.6"
reqwest = { version = "0.11", default-features = false, features = ["rustls-tls"] }
octocrab = "0.32"
hyper = "0.14"
async-trait = "0.1"
