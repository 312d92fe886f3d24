[package]
name = "compute_core"
version = "0.1.0"
edition = "2021"
publish = false

[dependencies]
ocl = "*"
gl = "*"
glfw = "*"
log = "*"
pretty_env_logger = "*"
chrono = "*"
