[package]
name = "tmpls"
version = "0.1.0"
edition = "2021"
publish = false

[dependencies]
maud = "*"
markup = "*"
horrorshow = "*"
sailfish = "*"
ahash = "*"
thiserror = "*"
pretty-error-debug = "*"
criterion = { version = "*", default-features = false }
