[package]
name = "frustum_culling"
version = "0.1.0"
edition = "2021"
publish = false

[dependencies]
const_soft_float = "=0.1.4"
bevy_math = "=0.19.1"
