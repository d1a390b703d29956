[package]
name = "volsnap"
version = "0.1.0"
edition = "2021"
publish = false

[dependencies]
winapi = { version = "0.3", default-features = false, features = ["fileapi", "winnt", "minwindef"] }
