[package]
name = "polyline_simplify"
version = "0.1.0"
edition = "2021"
publish = false

[dependencies]
geo = "*"
cxx = "1"
