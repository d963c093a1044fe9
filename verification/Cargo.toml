[package]
name = "riftbar"
version = "0.1.0"
edition = "2021"
publish = false

[dependencies]
dbus = { version = "=0.9.12", features = ["vendored"] }
dbus-crossroads = "=0.5.3"
gtk4 = "=0.11.5"
gtk4-layer-shell = "=0.8.1"
grass = { version = "=0.13.4", default-features = false }
serde = { version = "=1.0.229", features = ["derive"] }
toml = "=1.1.8"
tokio = { version = "=1.54.1", features = ["rt", "rt-multi-thread", "process", "time", "sync"] }
