[package]
name = "formula_y"
version = "0.1.0"
edition = "2021"

[dependencies]
convert_case = "0.6"
proc-macro2 = "1"
quote = "1"
syn = "1"
