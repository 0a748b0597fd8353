[package]
name = "shipyard"
version = "0.1.0"
edition = "2021"
publish = false

[dependencies]
actix-web = "=4.18.1"
anyhow = "=1.0.104"
awc = "=3.11.0"
itertools = "=0.15.0"
material-yew = { version = "=0.1.0", features = ["list"] }
redis = "=1.8.0"
serde = { version = "=1.0.229", features = ["derive"] }
serde_json = "=1.0.154"
yew = "=0.18.0"
