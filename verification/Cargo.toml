[package]
name = "vpc_migration_tools"
version = "0.1.0"
edition = "2021"
publish = false

[dependencies]
dialoguer = "0.10"
env_logger = "0.10"
log = "0.4"
structopt = "0.3"
sysinfo = "0.26"
