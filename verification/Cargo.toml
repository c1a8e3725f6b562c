[package]
name = "sorting_cell"
version = "0.1.0"
edition = "2021"
publish = false

[dependencies]
serial2 = { version = "=0.2.38", features = ["unix"] }
dust_dds = "=0.16.0"
rust_gpiozero = "=0.2.1"
