[package]
name = "gfx_backend_dx12"
version = "0.1.0"
edition = "2021"
publish = false

[dependencies]
gfx-hal = "0.3"
d3d12 = "0.2"
log = "0.4"
winapi = { version = "0.3", features = ["basetsd", "d3d12", "d3d12sdklayers", "d3dcommon", "dxgi", "dxgi1_2", "dxgi1_3", "dxgi1_4", "dxgi1_6", "dxgidebug", "dxgiformat", "handleapi", "minwindef", "synchapi", "unknwnbase", "winbase", "winerror"] }
