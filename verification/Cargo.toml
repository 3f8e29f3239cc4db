[package]
name = "nominal_ffi"
version = "0.1.0"
edition = "2021"
publish = false

[dependencies]
chrono = { version = "=0.4.45", default-features = false, features = ["std", "clock"] }
once_cell = "=1.21.4"
tokio = { version = "=1.54.1", features = ["rt-multi-thread"] }
