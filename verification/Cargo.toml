[package]
name = "bonjour"
version = "0.1.0"
edition = "2021"
publish = false

[dependencies]
chrono = "0.4"
serde = { version = "1", features = ["derive"] }
serde_json = "1"
serenity = { version = "0.11", features = ["voice"] }
songbird = { version = "0.3", features = ["builtin-queue"] }
tokio = { version = "1", features = ["macros", "rt-multi-thread"] }
