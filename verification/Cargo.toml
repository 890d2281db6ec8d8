[package]
name = "prose_lint"
version = "0.1.0"
edition = "2021"
publish = false

[dependencies]
annotate-snippets = { version = "0.9", features = ["color"] }
serde = { version = "1", features = ["derive"] }
serde_urlencoded = "0.7"
ureq = { version = "2", features = ["json"] }
