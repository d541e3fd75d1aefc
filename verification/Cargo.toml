[package]
name = "uhyve_fs"
version = "0.1.0"
edition = "2021"
publish = false

[dependencies]
hermit-sync = "*"
x86 = "*"
