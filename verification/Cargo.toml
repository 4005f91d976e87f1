[package]
name = "tf_jetsoncode"
version = "0.1.0"
edition = "2021"
publish = false

[dependencies]
anyhow = "=1.0.104"
hidapi = { version = "=2.6.7", default-features = false, features = ["linux-native-basic-udev"] }
prost = "=0.13.5"
prost-types = "=0.13.5"
serde = { version = "=1.0.229", features = ["derive"] }
tokio = { version = "=1.54.1", features = ["full"] }
toml = "=0.8.23"
tracing = "=0.1.44"
tracing-subscriber = "=0.3.23"
