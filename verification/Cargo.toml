[package]
name = "rm_for_windows"
version = "0.1.0"
edition = "2021"
publish = false

[dependencies]
anyhow = "1"
clap = "2"
dialoguer = "*"
walkdir = "2"
