[package]
name = "hid_proxy"
version = "0.1.0"
edition = "2021"
publish = false

[dependencies]
clap = { version = "4", features = ["derive"] }
futures = "0.3"
is-terminal = "0.4"
libc = "0.2"
rhai = { version = "1", features = ["sync"] }
rusb = { version = "0.9", features = ["vendored"] }
tokio = { version = "1", features = ["full"] }
tracing = "0.1"
tracing-journald = "0.3"
tracing-subscriber = "0.3"
udev = "*"
