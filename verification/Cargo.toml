[package]
name = "chippy"
version = "0.1.0"
edition = "2021"
publish = false

[dependencies]
byteorder = "1"
color-eyre = "0.6"
crossterm = "0.25"
ctrlc = "3"
eyre = "0.6"
structopt = "0.3"
thiserror = "1"
tui = "0.19"
