[package]
name = "slideshow"
version = "0.1.0"
edition = "2021"
publish = false

[dependencies]
merge-struct = "0.1"
serde = { version = "1", features = ["derive"] }
serde_yaml = "0.9"
thiserror = "1"
unicode-width = "0.1"
