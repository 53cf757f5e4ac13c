[package]
name = "imgui_dx11_renderer"
version = "0.1.0"
edition = "2021"
publish = false

[dependencies]
imgui = "=0.12.0"
windows = { version = "=0.52.0", features = [
    "Win32_Foundation",
    "Win32_Graphics_Direct3D",
    "Win32_Graphics_Direct3D_Fxc",
    "Win32_Graphics_Direct3D11",
    "Win32_Graphics_Dxgi",
    "Win32_Graphics_Dxgi_Common",
] }
