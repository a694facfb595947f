[package]
name = "datars"
version = "0.1.0"
edition = "2021"
publish = false

[dependencies]
dirs = "*"
itertools = "*"
polars = { version = "*", default-features = false, features = ["csv", "lazy", "rows", "dtype-date", "strings", "fmt"] }
reqwest = { version = "*", default-features = false }
tokio = { version = "*", features = ["rt-multi-thread", "macros"] }
