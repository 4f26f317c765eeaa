[package]
name = "plushy"
version = "0.1.0"
edition = "2021"
publish = false

[dependencies]
atomic_refcell = "*"
once_cell = "*"
