[package]
name = "gfx"
version = "0.1.0"
edition = "2021"
publish = false

[dependencies]
nalgebra = "*"
specs = "*"
stb_image = "0.2"
tobj = "0.1"
winapi = { version = "0.3", features = ["d3d11", "d3d11sdklayers", "d3dcommon", "d3dcompiler", "dxgi", "dxgiformat", "dxgitype", "minwindef", "windef", "winerror", "winuser"] }
