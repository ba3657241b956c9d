[package]
name = "action_log"
version = "0.1.0"
edition = "2021"
publish = false

[dependencies]
anyhow = "=1.0.104"
async-watch = "=0.3.1"
