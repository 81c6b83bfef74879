[package]
name = "rusteze_commit"
version = "0.1.0"
edition = "2021"
publish = false

[dependencies]
git2 = { version = "*", default-features = false }
clap = "*"
reqwest = { version = "*", default-features = false, features = ["json", "rustls-tls"] }
serde = "*"
serde_json = "*"
thiserror = "*"
tokio = { version = "*", features = ["macros", "rt-multi-thread"] }

[dev-dependencies]
tempfile = "*"
