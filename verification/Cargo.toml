[package]
name = "ctest_next"
version = "0.1.0"
edition = "2021"
publish = false

[dependencies]
askama = "0.14"
syn = { version = "2", features = ["full", "visit"] }
thiserror = "2"
