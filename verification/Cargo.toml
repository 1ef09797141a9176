[package]
name = "gig_tracker"
version = "0.1.0"
edition = "2021"
publish = false

[dependencies]
async-std = { version = "1", features = ["attributes"] }
crossterm = "0.28"
dotenv = "0.15"
ratatui = "0.29"
sqlx = { version = "0.8", default-features = false, features = ["runtime-async-std", "sqlite"] }
