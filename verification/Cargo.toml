[package]
name = "cv_bridge"
version = "0.1.0"
edition = "2021"

[dependencies]
byteorder = "1"
opencv = "*"
rosrust_msg = "*"
