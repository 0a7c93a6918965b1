[package]
name = "kuberic"
version = "0.1.0"
edition = "2021"
publish = false

[dependencies]
async-trait = "0.1"
bytes = "1"
k8s-openapi = { version = "*", features = ["latest"] }
kube = { version = "*", default-features = false, features = ["client", "runtime", "derive"] }
libsqlite3-sys = { version = "*", features = ["bundled"] }
postcard = { version = "1", features = ["alloc"] }
rand = "*"
schemars = "*"
serde = { version = "1", features = ["derive"] }
serde_json = "1"
sha2 = "*"
tokio = { version = "1", features = ["full"] }
tokio-stream = "0.1"
tonic = { version = "*", default-features = false }
tracing = "0.1"
