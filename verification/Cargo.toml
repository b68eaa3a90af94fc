[package]
name = "subversion"
version = "0.1.0"
edition = "2021"
publish = false

[dependencies]
subversion-sys = "*"
apr-sys = "*"
apr = "*"
ctor = "*"
