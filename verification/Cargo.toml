[package]
name = "ggrs_plot_operator"
version = "0.1.0"
edition = "2021"
publish = false

[dependencies]
serde_json = "=1.0.154"
base64 = "=0.22.1"
thiserror = "=2.0.21"
tokio = { version = "=1.54.1", features = ["rt-multi-thread", "macros", "time"] }
tokio-stream = "=0.1.19"
tonic = "=0.12.3"
prost = "=0.13.5"
futures = "=0.3.34"
tikv-jemallocator = "=0.7.0"
arrow = { version = "=60.1.0", default-features = false, features = ["ipc"] }
polars = { version = "=0.55.2", default-features = false, features = ["lazy"] }
