[package]
name = "arrow_flight_sql_client"
version = "0.1.0"
edition = "2021"
publish = false

[dependencies]
arrow = "=60.0.0"
arrow-flight = { version = "=60.0.0", features = ["flight-sql"] }
tonic = "=0.14.6"
tokio = { version = "=1.53.2", features = ["full"] }
futures = "=0.3.34"
clap = { version = "=4.6.7", features = ["derive"] }

[dev-dependencies]
flatbuffers = "=25.12.19"
prost = "=0.14.4"
prost-types = "=0.14.4"
