[package]
name = "limber"
version = "0.1.0"
edition = "2021"
publish = false

[dependencies]
serde_json = "=1.0.151"
url = "=2.5.8"
num_cpus = "=1.17.0"
clap = "=2.34.0"
