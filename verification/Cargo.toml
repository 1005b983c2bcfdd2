[package]
name = "courier"
version = "0.2.0"
edition = "2021"
publish = false

[dependencies]
chrono = "0.4"
lettre = "0.11"
structopt = "0.3"
