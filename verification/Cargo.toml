[package]
name = "riscv32im"
version = "0.1.0"
edition = "2021"
publish = false

[dependencies]
os_pipe = "*"
command-fds = "*"
