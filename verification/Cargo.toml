[package]
name = "explore_table"
version = "0.1.0"
edition = "2021"
publish = false

[dependencies]
clap = "2"
postgres = "0.19"
