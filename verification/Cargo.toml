[package]
name = "shader_marshal"
version = "0.1.0"
edition = "2021"
publish = false

[dependencies]
widestring = "=1.2.1"
thiserror = "=1.0.69"
windows = { version = "=0.59.0", features = ["Win32_Foundation", "Win32_Graphics_Direct3D", "Win32_Graphics_Direct3D_Fxc"] }
