[package]
name = "btwattch2"
version = "0.1.0"
edition = "2021"
publish = false

[dependencies]
crc = "*"
btleplug = "*"
tokio = { version = "*", features = ["macros", "rt-multi-thread", "time"] }
futures = "*"
influxdb2 = "*"
structopt = "*"
tracing = "*"
tracing-subscriber = "*"
uuid = "*"
