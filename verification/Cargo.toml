[package]
name = "isucholar_infra"
version = "0.1.0"
edition = "2021"
publish = false

[dependencies]
async-trait = "0.1"
futures = "0.3"
num-traits = "0.2"
rust_decimal = "1"
sqlx = { version = "0.7", default-features = false, features = ["mysql", "runtime-tokio", "rust_decimal", "macros"] }
