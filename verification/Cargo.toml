[package]
name = "divvun_bundler"
version = "0.1.0"
edition = "2021"
publish = false

[dependencies]
clap = "=2.34.0"
env_logger = "=0.7.1"
log = "=0.4.35"
zip = { version = "=9.2.2", default-features = false, features = ["deflate", "bzip2"] }
