[package]
name = "stochastic_rules"
version = "0.1.0"
edition = "2021"
publish = false

[dependencies]
csv = "1"
egg = "*"
serde = "1"
