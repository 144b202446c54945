[package]
name = "ticketsrvc"
version = "0.1.0"
edition = "2021"
publish = false

[dependencies]
amqprs = "1"
backon = "0.4"
envy = "0.4"
mongodb = "2"
prost = "0.12"
prost-types = "0.12"
rand = "0.8"
serde = { version = "1", features = ["derive"] }
thiserror = "1"
tokio = { version = "1", features = ["macros", "rt-multi-thread", "signal", "net"] }
tokio-stream = { version = "0.1", features = ["net"] }
tonic = "0.11"
tonic-reflection = "0.11"
tower-http = { version = "0.4", features = ["trace"] }
tracing = "0.1"
tracing-subscriber = "0.3"
