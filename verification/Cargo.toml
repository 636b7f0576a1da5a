[package]
name = "eliprompt"
version = "0.1.0"
edition = "2021"
publish = false

[dependencies]
ansi_term = "*"
bs58 = "*"
clap = { version = "*", features = ["derive"] }
dirs = "*"
git2 = { version = "*", default-features = false }
humantime = "*"
humantime-serde = "*"
moniclock = "*"
palette = { version = "*", default-features = false, features = ["std", "named_from_str"] }
serde = { version = "*", features = ["derive"] }
serde_json = "*"
strum = { version = "*", features = ["derive"] }
whoami = "*"
