[package]
name = "arise"
version = "0.1.0"
edition = "2021"
publish = false

[dependencies]
clap = "2"
flexi_logger = "0.22"
log = "0.4"
main_error = "0.1"
yansi = "0.5"
