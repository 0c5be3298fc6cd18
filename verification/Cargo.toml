[package]
name = "cognexus_plugins"
version = "0.1.0"
edition = "2021"
publish = false

[dependencies]
wasmtime = { version = "=45.0.3", default-features = false, features = ["cranelift", "component-model", "runtime", "std"] }
wasmtime-wasi = "=45.0.3"
uuid = { version = "=1.29.0", features = ["v4"] }
semver = "=1.0.28"
log = "=0.4.34"
thiserror = "=2.0.21"
clap = { version = "=4.6.7", features = ["derive"] }
glam = "=0.34.1"
