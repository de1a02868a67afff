[package]
name = "sbsh"
version = "0.1.0"
edition = "2021"
publish = false

[dependencies]
iridescent = "*"
rhai = "1"
rustyline = "*"
git2 = { version = "*", default-features = false }
whoami = "1"
chrono = "0.4"
once_cell = "1"
