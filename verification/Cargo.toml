[package]
name = "script_worker"
version = "0.1.0"
edition = "2021"
publish = false

[dependencies]
deno_core = "=0.351.0"
deno_error = "=0.6.1"
deno_url = "=0.208.0"
serde = "=1.0.229"
serde_json = "=1.0.154"
tokio = { version = "=1.54.1", features = ["rt", "time"] }

[dev-dependencies]
threadpool = "=1.8.1"
