[package]
name = "slapjack"
version = "0.1.0"
edition = "2021"
publish = false

[dependencies]
faust-types = "0.2.1"
