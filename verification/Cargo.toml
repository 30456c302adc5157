[package]
name = "student_portal"
version = "0.1.0"
edition = "2021"
publish = false

[dependencies]
chrono = { version = "=0.4.45", default-features = false, features = ["clock", "std"] }
actix-web = "=4.18.1"
actix-files = "=0.6.10"
askama = "=0.12.1"
sea-orm = { version = "=0.11.3", default-features = false, features = ["macros", "sqlx-sqlite", "runtime-actix-native-tls"] }
sea-orm-migration = { version = "0.11.3", default-features = false }
reqwest = { version = "=0.11.27", features = ["json"] }
serde = { version = "=1.0.229", features = ["derive"] }
serde_json = "=1.0.154"
config = { version = "=0.11.0", default-features = false }
dotenv = "=0.15.0"
async-trait = "=0.1.92"
