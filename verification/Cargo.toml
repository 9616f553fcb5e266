[package]
name = "vault-kms-provider"
version = "0.1.0"
edition = "2021"
publish = false

[dependencies]
base64 = "*"
bytes = "*"
chrono = "*"
convert_case = "*"
futures = "*"
http = "*"
http-body-util = "*"
hyper = { version = "*", features = ["server", "http1"] }
hyper-util = { version = "*", features = ["tokio"] }
notify = "*"
prost = "*"
tokio = { version = "*", features = ["full"] }
tokio-stream = { version = "*", features = ["net"] }
tonic = "*"
tonic-prost = "*"
tower = { version = "*", features = ["util"] }
tracing = "*"
tracing-subscriber = { version = "*", features = ["env-filter", "json"] }
vaultrs = "*"
