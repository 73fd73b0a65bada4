[package]
name = "async_ach"
version = "0.1.0"
edition = "2021"
publish = false

[dependencies]
ach-array = "=0.2.5"
ach-cell = "=0.2.5"
ach-linked = "=0.2.5"
ach-option = "=0.2.5"
ach-pubsub = { version = "=0.2.5", features = ["alloc"] }
ach-ring = "=0.2.5"
ach-spsc = "=0.2.5"
ach-util = "=0.2.5"
async-tick = "=0.2.5"
futures-util = "=0.3.34"

[dev-dependencies]
futures-test = "=0.3.34"
futures-executor = { version = "=0.3.34", features = ["thread-pool"] }
