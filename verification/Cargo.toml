[package]
name = "deno_typescript"
version = "0.1.0"
edition = "2021"
publish = false

[dependencies]
deno = "=0.16.0"
url = "=2.5.8"
serde = { version = "=1.0.229", features = ["derive"] }
serde_json = "=1.0.154"
syn = { version = "=1.0.109", features = ["full"] }
quote = "=1.0.47"
proc-macro2 = "=1.0.107"
