[package]
name = "svg_fmt"
version = "0.4.0"
edition = "2021"
publish = false
