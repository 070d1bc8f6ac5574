[package]
name = "chessboard_core"
version = "0.1.0"
edition = "2021"
publish = false

[dependencies]
shakmaty = "=0.27.3"
log = "=0.4.34"
env_logger = "=0.11.11"
