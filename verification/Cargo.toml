[package]
name = "zyxt"
version = "0.1.0"
edition = "2021"
publish = false

[dependencies]
ansi_term = "0.12"
backtrace = "*"
dirs = "*"
half = "*"
itertools = "*"
lazy_static = "1"
maplit = "1"
num-bigint = "0.4"
num-traits = "0.2"
once_cell = "1"
regex = "1"
rustyline = "10"
smol_str = "*"
text_io = "*"
tracing = "0.1"
