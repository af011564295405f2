[package]
name = "mpv_remote"
version = "0.1.0"
edition = "2021"
publish = false

[dependencies]
actix-web = "*"
mpvipc = "*"
serde = { version = "*", features = ["derive"] }
