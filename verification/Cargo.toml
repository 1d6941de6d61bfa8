[package]
name = "wt_rs"
version = "0.1.0"
edition = "2021"
publish = false

[dependencies]
async-trait = "0.1"
bytes = "1"
futures = "0.3"
quinn = { version = "0.11", default-features = false, features = ["runtime-tokio", "rustls-ring"] }
quinn-proto = { version = "0.11", default-features = false, features = ["rustls-ring"] }
thiserror = "2"
tokio = { version = "1", features = ["macros", "rt"] }
tracing = "0.1"
