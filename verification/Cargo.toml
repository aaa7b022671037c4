[package]
name = "candle_d3d12"
version = "0.1.0"
edition = "2021"
publish = false

[dependencies]
half = "2"
thiserror = "1"
tracing = "0.1"
windows = { version = "0.58", features = ["Win32_Foundation", "Win32_Graphics_Direct3D", "Win32_Graphics_Direct3D_Fxc", "Win32_Graphics_Direct3D12", "Win32_Graphics_Dxgi", "Win32_Graphics_Dxgi_Common", "Win32_System_Threading", "Win32_Security"] }
