[package]
name = "srtemplate"
version = "0.4.0"
edition = "2021"
publish = false

[dependencies]
dashmap = "6"
thiserror = "1"
paste = "1"
venial = "*"
quote = "1"
proc-macro2 = "1"
