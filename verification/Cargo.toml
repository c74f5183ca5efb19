[package]
name = "pwplayer"
version = "0.1.0"
edition = "2021"
publish = false

[dependencies]
async-std = "1"
bufstream = "0.1"
futures = "0.3"
log = "0.4"
pipewire = "0.8"
pretty_env_logger = "0.5"
rand = "0.8"
symphonia = "0.5"
