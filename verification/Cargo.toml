[package]
name = "nyc_trips"
version = "0.1.0"
edition = "2021"
publish = false

[dependencies]
serde = { version = "1", features = ["derive"] }
soa_derive = "0.13"
sqlx = { version = "0.7", default-features = false, features = ["macros"] }
