[package]
name = "hcloud_projects"
version = "0.1.0"
edition = "2021"
publish = false

[dependencies]
clap = "2"
color-eyre = "0.6"
eyre = "0.6"
reqwest = { version = "0.11", features = ["cookies", "json"] }
select = "0.6"
serde = { version = "1", features = ["derive"] }
serde_json = "1"
tokio = { version = "1", features = ["macros", "rt-multi-thread"] }
tracing-subscriber = { version = "0.3", features = ["env-filter"] }
url = "2"
