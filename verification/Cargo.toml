[package]
name = "size_hinter"
version = "0.1.0"
edition = "2021"
publish = false

[dependencies]
fluent_result = "*"
readonly = "*"
sealed = "*"
thiserror = "*"
