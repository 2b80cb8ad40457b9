[package]
name = "scylla_migration"
version = "0.1.0"
edition = "2021"
publish = false

[dependencies]
urlencoding = "*"
chrono = "*"
futures = "*"
indicatif = "*"
scylla = "*"
sea-orm = "*"
