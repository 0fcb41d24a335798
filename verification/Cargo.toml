[package]
name = "rbwasm"
version = "0.1.0"
edition = "2021"
publish = false

[dependencies]
siphasher = "*"
hex = "*"
regex = "*"
anyhow = "*"
log = "*"
env_logger = "*"
ansi_term = "*"
structopt = "*"
tempfile = "*"
which = "*"
num_cpus = "*"
reqwest = { version = "*", default-features = false, features = ["blocking"] }
