[package]
name = "itelex"
version = "0.1.0"
edition = "2021"

[dependencies]
binserde = "*"
binserde_derive = "*"
serde = { version = "1", features = ["derive"] }
thiserror = "1"
