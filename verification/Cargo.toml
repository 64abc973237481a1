[package]
name = "deno_plugin"
version = "0.1.0"
edition = "2021"
publish = false

[dependencies]
extism-pdk = "*"
proto_pdk = "*"
proto_pdk_api = "*"
semver = "*"
serde = { version = "*", features = ["derive"] }
system_env = "*"
version_spec = "*"
