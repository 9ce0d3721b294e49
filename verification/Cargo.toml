[package]
name = "gfx_runtime"
version = "0.1.0"
edition = "2021"
publish = false

[dependencies]
smallvec = "1"
gfx_gl = "*"
log = "0.4"
libloading = "*"
renderdoc-sys = "*"
winapi = { version = "0.3", features = ["d3d12", "d3dcommon", "unknwnbase", "winerror", "basetsd", "minwindef"] }
