[package]
name = "file_loader"
version = "0.1.0"
edition = "2021"
publish = false

[dependencies]
base64 = "0.13.1"
magic-crypt = "3.1.13"
