[package]
name = "ddlm"
version = "0.1.0"
edition = "2021"
publish = false

[dependencies]
framebuffer = "=0.3.2"
greetd_ipc = { version = "=0.10.3", features = ["sync-codec"] }
hostname = "=0.4.2"
memmap = "=0.7.0"
osstrtools = "=0.1.9"
structopt = "=0.3.26"
termion = "=4.0.6"
thiserror = "=2.0.21"
