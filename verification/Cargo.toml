[package]
name = "tensorboard_writer"
version = "0.1.0"
edition = "2021"
publish = false

[dependencies]
hostname = "0.3"
prost = { version = "0.11", default-features = false, features = ["std"] }
