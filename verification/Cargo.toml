[package]
name = "coverage_harness"
version = "0.1.0"
edition = "2021"
publish = false

[dependencies]
rslint_errors = "*"
rslint_parser = "*"
rayon = "*"
indicatif = "*"
colored = "*"
ascii_table = "*"
