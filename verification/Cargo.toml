[package]
name = "actix-realworld-example"
version = "0.1.0"
edition = "2021"
publish = false

[dependencies]
argon2 = { version = "=0.5.3", features = ["std"] }
serde_json = "=1.0.154"
serde = { version = "=1.0.229", features = ["derive"] }
serde_yaml = "=0.9.34"
jsonwebtoken = "=8.3.0"
actix-web = "=4.18.1"
actix-http = "=3.20.0"
actix-cors = "=0.6.5"
actix-web-httpauth = "=0.8.3"
rbatis = "=4.9.8"
rbs = "=4.8.4"
rbdc-pg = "=4.9.6"
fastdate = "=0.1.39"
fast_log = "=1.7.10"
once_cell = "=1.21.4"
tokio = { version = "=1.54.1", features = ["full"] }
futures-util = "=0.3.34"
local_ipaddress = "=0.1.3"
log = "=0.4.35"
