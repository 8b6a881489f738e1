[package]
name = "term_list"
version = "0.1.0"
edition = "2021"
publish = false

[dependencies]
typst-utils = "*"
