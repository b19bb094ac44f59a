[package]
name = "blog_repo"
version = "0.1.0"
edition = "2021"
publish = false

[dependencies]
actix-web = { version = "*", default-features = false, features = ["macros"] }
anyhow = "*"
diesel = { version = "*", features = ["r2d2"] }
serde = { version = "*", features = ["derive"] }
thiserror = "*"
