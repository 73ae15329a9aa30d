[package]
name = "crops"
version = "0.1.0"
edition = "2021"
publish = false

[dependencies]
convert_case = "*"
itertools = "*"
libc = "0.2"
proc-macro2 = "1"
quote = "1"
syn = { version = "2", features = ["full"] }
