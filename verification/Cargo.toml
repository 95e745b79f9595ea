[package]
name = "count_digits"
version = "0.1.0"
edition = "2021"
publish = false
