[package]
name = "gl_render"
version = "0.1.0"
edition = "2021"
publish = false

[dependencies]
gl = "*"
glfw = "*"
glm = "*"
image = { version = "*", default-features = false, features = ["png"] }
impl_ops = "*"
thiserror = "*"
toml = "*"
