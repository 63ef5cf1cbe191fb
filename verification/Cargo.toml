[package]
name = "mimicaw"
version = "0.1.1"
edition = "2021"
publish = false

[dependencies]
console = "0.10"
futures = "0.3"
futures-core = "0.3"
futures-intrusive = "0.3"
futures-util = "0.3"
getopts = "0.2"
indicatif = "0.14"
num-format = "0.4"
pin-project-lite = "0.1"
