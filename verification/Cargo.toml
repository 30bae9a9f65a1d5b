[package]
name = "cmdb"
version = "0.1.0"
edition = "2021"
publish = false

[dependencies]
chrono = { version = "=0.4.45", features = ["serde"] }
uuid = { version = "=1.29.0", features = ["v4", "serde"] }
serde = { version = "=1.0.229", features = ["derive"] }
serde_json = "=1.0.154"
actix-web = "=4.18.1"
actix-cors = "=0.7.2"
actix-rt = "=2.15.0"
diesel = { version = "=2.3.14", features = ["postgres", "r2d2", "chrono", "serde_json", "uuid"] }
futures = "=0.3.34"
log = "=0.4.35"
once_cell = "=1.21.4"
toml = "0.8"
