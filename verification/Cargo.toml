[package]
name = "election"
version = "0.1.0"
edition = "2021"
publish = false

[dependencies]
minidom = "*"
zip = { version = "*", default-features = false, features = ["deflate"] }
serde = { version = "1", features = ["derive"] }
quick-xml = { version = "*", features = ["serialize"] }
reqwest = { version = "*", default-features = false }
suppaftp = "*"
sqlx = { version = "*", default-features = false, features = ["postgres", "runtime-tokio"] }
tokio = { version = "1", features = ["rt-multi-thread", "macros"] }
