[package]
name = "sitemirror"
version = "0.1.0"
edition = "2021"
publish = false

[dependencies]
chrono = "*"
chrono-tz = "*"
comrak = "*"
gray_matter = "*"
minijinja = { version = "*", features = ["loader"] }
slug = "*"
serde = { version = "*", features = ["derive"] }
serde_json = "*"
serde_yaml = "*"
tokio = { version = "*", features = ["full"] }
axum = "*"
tower = "*"
tower-http = { version = "*", features = ["fs", "trace", "normalize-path"] }
tracing = "*"
tracing-subscriber = { version = "*", features = ["env-filter"] }
notify = "*"
once_cell = "*"
reqwest = { version = "*", default-features = false, features = ["json"] }
