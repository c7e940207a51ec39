[package]
name = "htmd_py"
version = "0.1.0"
edition = "2021"
publish = false

[dependencies]
htmd = "0.5"
lol_html = "*"
regex = "1"
pyo3 = "0.28"
