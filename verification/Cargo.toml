[package]
name = "ad9959"
version = "0.1.0"
edition = "2021"
publish = false

[dependencies]
bit_field = "0.10"
bytemuck = { version = "1", features = ["extern_crate_alloc"] }
embedded-hal = "0.2"
