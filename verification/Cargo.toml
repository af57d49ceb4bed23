[package]
name = "uoomibl"
version = "0.1.0"
edition = "2021"
publish = false

[dependencies]
chrono = "*"
num_cpus = "*"
directories = "*"
log = "*"
fern = "*"
serde = { version = "*", features = ["derive"] }
serde_json = "*"
