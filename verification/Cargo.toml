[package]
name = "agent_ui"
version = "0.1.0"
edition = "2021"
publish = false

[dependencies]
anyhow = "=1.0.104"
libc = "=0.2.191"
log = "0.4"
smol = "=2.0.2"
