[package]
name = "fretboard_courses"
version = "0.1.0"
edition = "2021"
publish = false

[dependencies]
anyhow = "=1.0.104"
trane = "=0.20.0"
ustr = "=0.9.0"

[dev-dependencies]
tempfile = "=3.27.0"
