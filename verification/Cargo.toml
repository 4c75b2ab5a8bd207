[package]
name = "cyrup_release"
version = "0.1.0"
edition = "2021"
publish = false

[dependencies]
semver = "=1.0.28"
serde = { version = "=1.0.229", features = ["derive"] }
serde_json = "=1.0.154"
thiserror = "=1.0.69"
toml = "=1.1.8"
toml_edit = "=0.25.17"
chrono = { version = "=0.4.45", default-features = false, features = ["clock", "std"] }
async-trait = "=0.1.92"
gix = { version = "=0.90.0", default-features = false, features = ["sha1", "revision", "status"] }
