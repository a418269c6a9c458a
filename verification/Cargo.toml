[package]
name = "azure_messaging_eventhubs"
version = "0.1.0"
edition = "2021"
publish = false

[dependencies]
uuid = { version = "1", features = ["v4"] }
time = "0.3"
url = "2"
tracing = "0.1"
log = "0.4"
serde = { version = "1", features = ["derive"] }
serde_json = "1"
serde_bytes = "0.11"
async-trait = "0.1"
async-lock = "3"
tokio = { version = "1", features = ["sync", "macros", "rt"] }
pin-project = "1"
proc-macro2 = "1"
quote = "1"
syn = { version = "2", features = ["full"] }
azure_core = { version = "*", default-features = false }
fe2o3-amqp = { version = "*", default-features = false }
fe2o3-amqp-types = "*"
fe2o3-amqp-management = "*"
fe2o3-amqp-cbs = "*"
serde_amqp = "*"
opentelemetry = "*"
opentelemetry_sdk = "*"
