[package]
name = "bottle_zoa"
version = "0.1.0"
edition = "2021"
publish = false

[dependencies]
chrono = "0.4"
regex = "1"
xml-rs = "0.8"
serde = { version = "1", features = ["derive"] }
serde_json = "1"
reqwest = { version = "0.12", default-features = false, features = ["blocking", "json"] }
redis = { version = "*", default-features = false }
calamine = "*"
rocket = "0.5"
rocket_dyn_templates = { version = "0.2", features = ["tera"] }
rocket_sync_db_pools = { version = "0.1", features = ["diesel_mysql_pool"] }
diesel = { version = "2", features = ["mysql"] }
rocket-multipart-form-data = "*"
