[package]
name = "vidatitles"
version = "0.1.0"
edition = "2021"
publish = false

[dependencies]
clap = "3.2"
crossterm = "0.23"
diesel = { version = "1.4", features = ["postgres"] }
dotenv = "0.15"
regex = "1"
reqwest = { version = "0.11", features = ["blocking"] }
