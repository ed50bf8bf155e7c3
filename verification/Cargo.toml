[package]
name = "seeder"
version = "0.1.0"
edition = "2021"
publish = false

[dependencies]
bcrypt = "=0.15.1"
chrono = "=0.4.45"
diesel = { version = "=2.3.14", features = ["postgres", "chrono", "network-address"] }
diesel_geometry = "=1.4.0"
dotenvy = "=0.15.7"
fake = "=2.10.0"
ipnetwork = "=0.21.1"
