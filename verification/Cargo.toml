[package]
name = "gitlab_mirror"
version = "0.1.0"
edition = "2021"
publish = false

[dependencies]
clap = { version = "3", features = ["derive"] }
dirs = "*"
git2 = "*"
gitlab = "*"
indicatif = "*"
rpassword = "*"
serde = { version = "1", features = ["derive"] }
