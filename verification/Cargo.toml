[package]
name = "holo"
version = "0.1.0"
edition = "2021"
publish = false

[dependencies]
regex = "1"
svg = "*"
glam = "*"
obj = "*"
csv = "1"
clap = { version = "4", features = ["derive"] }
thiserror = "1"
serde = { version = "1", features = ["derive"] }
actix-web = { version = "4", default-features = false, features = ["macros"] }
actix-files = "0.6"
tera = { version = "1", default-features = false }
