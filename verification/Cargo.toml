[package]
name = "rplidar_zenoh_driver"
version = "0.1.0"
edition = "2021"
publish = false

[dependencies]
anyhow = "=1.0.104"
base64 = "=0.21.7"
clap = { version = "=4.6.7", features = ["derive"] }
foxglove-ws = "=0.2.2"
mcap = { version = "=0.9.2", default-features = false }
once_cell = "=1.21.4"
prost = "=0.12.6"
prost-reflect = "=0.13.1"
prost-types = "=0.12.6"
rplidar_drv = "=0.6.0"
serialport = { version = "=4.10.1", default-features = false }
thiserror = "=1.0.69"
tokio = { version = "=1.54.1", features = ["full"] }
tracing = { version = "=0.1.44", features = ["log"] }
tracing-logfmt = "=0.3.7"
tracing-subscriber = { version = "=0.3.23", features = ["env-filter"] }
zenoh = { version = "=0.11.0", default-features = false, features = ["transport_tcp"] }
zenoh-config = "=0.11.0"
