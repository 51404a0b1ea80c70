[package]
name = "surface_dtx"
version = "0.1.0"
edition = "2021"
publish = false

[dependencies]
smallvec = "1"
anyhow = "1"
tokio = { version = "1", features = ["full"] }
futures = "0.3"
dbus = "0.9"
dbus-tokio = "0.7"
dbus-crossroads = "0.5"
nix = { version = "*", features = ["ioctl"] }
clap = "4"
toml = "*"
serde = { version = "1", features = ["derive"] }
serde_ignored = "0.1"
tracing = "0.1"
tracing-subscriber = { version = "0.3", features = ["env-filter"] }
atty = "0.2"
