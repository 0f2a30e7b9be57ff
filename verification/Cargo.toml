[package]
name = "keywatch"
version = "0.1.0"
edition = "2021"
publish = false

[dependencies]
device_query = "*"
once_cell = "*"
parking_lot = "*"
stoppable_thread = "*"
