[package]
name = "test_bot"
version = "0.1.0"
edition = "2021"
publish = false

[dependencies]
rand = "0.8"
dotenv = "0.15"
env_logger = "0.11"
log = "0.4"
num_cpus = "1"
rayon = "1"
