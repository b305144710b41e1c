[package]
name = "ride_service"
version = "0.1.0"
edition = "2021"
publish = false

[dependencies]
uuid = { version = "*", features = ["v4"] }
rand = "*"
chrono = "*"
serde = { version = "*", features = ["derive"] }
serde_json = "*"
log = "*"
simple_logger = "*"
lambda_runtime = "*"
tokio = { version = "*", features = ["macros", "rt"] }
rusoto_core = { version = "*", default-features = false, features = ["rustls"] }
rusoto_dynamodb = { version = "*", default-features = false, features = ["rustls"] }
