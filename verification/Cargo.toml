[package]
name = "l4t_playpen"
version = "0.1.0"
edition = "2021"
publish = false

[dependencies]
lru-cache = "0.1"
wait-timeout = "0.2"
libc = "0.2"
log = "0.3"
env_logger = "0.4"
iron = "0.6"
hyper = "0.10"
router = "0.6"
staticfile = "0.5"
rustc-serialize = "0.3"
unicase = "1"
