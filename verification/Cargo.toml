[package]
name = "db2lib"
version = "0.1.0"
edition = "2021"
publish = false

[dependencies]
anyhow = "1"
dotenvy = "*"
env_logger = "*"
fs2 = "*"
log = "0.4"
odbc-api = "*"
quick-xml = "*"
