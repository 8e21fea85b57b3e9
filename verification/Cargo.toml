[package]
name = "oneconfig_artifacts"
version = "0.1.0"
edition = "2021"
publish = false

[dependencies]
actix-web = { version = "4", default-features = false, features = ["macros"] }
anyhow = "1"
base16ct = { version = "0.2", features = ["alloc"] }
clap = { version = "4", features = ["derive", "env"] }
env_logger = "0.11"
moka = { version = "0.12", features = ["sync"] }
quick-xml = { version = "0.37", features = ["serialize"] }
reqwest = { version = "0.12", default-features = false, features = ["json"] }
roxmltree = "0.20"
semver = "1"
serde = { version = "1", features = ["derive"] }
serde_json = "1"
sha2 = "0.10"
thiserror = "1"
tokio = { version = "1", features = ["rt-multi-thread", "macros"] }
url = "2"
