[package]
name = "assoc_type_lint"
version = "0.1.0"
edition = "2021"
publish = false
