[package]
name = "person_record"
version = "0.1.0"
edition = "2021"
publish = false

[dependencies]
futures = "0.3"
thiserror = "1"
tokio = { version = "1", features = ["fs", "macros", "rt-multi-thread"] }
