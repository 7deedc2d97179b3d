[package]
name = "mygrep"
version = "0.1.0"
edition = "2021"

[dependencies]
ansi_term = "*"
atty = "*"
clap = "4"
rayon = "*"
regex = "*"
walkdir = "*"
