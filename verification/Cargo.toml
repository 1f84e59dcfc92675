[package]
name = "siri_timetable"
version = "0.1.0"
edition = "2021"
publish = false

[dependencies]
actix-web = { version = "=4.15.0", default-features = false }
chrono = "=0.4.45"
chrono-tz = "=0.10.4"
gtfs-structures = { version = "=0.50.1", default-features = false }
openapi = "*"
openapi-schema = "*"
quick-xml = { version = "=0.42.0", features = ["serialize"] }
serde = { version = "=1.0.229", features = ["derive"] }
transit_model = "=0.56.1"
