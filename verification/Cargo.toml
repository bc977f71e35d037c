[package]
name = "error_responses"
version = "0.1.0"
edition = "2021"
publish = false

[dependencies]
anyhow = "1"
hyper = "0.14"
routerify = "3"
