[package]
name = "circle_mover"
version = "0.1.0"
edition = "2021"
publish = false

[dependencies]
anyhow = "1"
bincode = "1.3"
futures = "0.3"
nalgebra = "0.32"
prost = "0.12"
prost-types = "0.12"
queues = "1.1"
quinn = "0.10"
ractor = "0.9"
rcgen = "0.11"
rustls = { version = "0.21", features = ["dangerous_configuration"] }
serde = { version = "1", features = ["derive"] }
tokio = { version = "1", features = ["full"] }
tracing = "0.1"
tracing-subscriber = "0.3"
