[package]
name = "wordlib"
version = "0.1.0"
edition = "2021"
publish = false

[dependencies]
sqlite = "0.27"
fltk = "1"

[dev-dependencies]
sqlite3-sys = "*"
