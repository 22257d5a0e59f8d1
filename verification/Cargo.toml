[package]
name = "airadb"
version = "0.1.0"
edition = "2021"
publish = false

[dependencies]
anstream = "=1.0.0"
anyhow = "=1.0.104"
clap = "=4.6.7"
