[package]
name = "h3lis200dl"
version = "0.1.0"
edition = "2021"
publish = false

[dependencies]
cast = "0.3"
embedded-hal = "1.0"
mint = "0.5"
