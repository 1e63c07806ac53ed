[package]
name = "sqlx_crud_macros"
version = "0.1.0"
edition = "2021"
publish = false

[dependencies]
Inflector = "0.11"
proc-macro2 = "1"
quote = "1"
syn = { version = "2", features = ["full"] }
