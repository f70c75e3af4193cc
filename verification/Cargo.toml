[package]
name = "lb_proxy"
version = "0.1.0"
edition = "2021"
publish = false

[dependencies]
async-trait = "*"
env_logger = "*"
log = "*"
pingora-core = "*"
pingora-proxy = "*"
structopt = "*"
