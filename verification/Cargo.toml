[package]
name = "cli_boilerplate_automation"
version = "0.1.0"
edition = "2021"
publish = false

[dependencies]
cfg-if = "1"
easy-ext = "1"
libc = "0.2"
log = "0.4"
paste = "1"
thiserror = "2"
