[package]
name = "reina_monitor"
version = "0.1.0"
edition = "2021"
publish = false

[dependencies]
sysinfo = "=0.39.6"
tokio = { version = "=1.53.2", features = ["rt-multi-thread", "time", "macros", "signal", "sync"] }
zbus = "=5.19.0"
zbus_systemd = { version = "=0.26200.0", features = ["systemd1", "zbus-async-tokio"] }
serde = { version = "=1.0.229", features = ["derive"] }
serde_json = "=1.0.151"
dirs = "=7.0.0"
directories = "=6.0.0"
