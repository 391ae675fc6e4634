[package]
name = "stable_vtable"
version = "0.1.0"
edition = "2021"
publish = false
