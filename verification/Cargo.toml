[package]
name = "rustnn"
version = "0.1.0"
edition = "2021"
publish = false

[dependencies]
half = "=2.7.1"
libc = "=0.2.191"
log = "=0.4.35"
seahash = "=4.1.0"
serde = { version = "=1.0.229", features = ["derive"] }
serde_json = "=1.0.154"
serde_with = "=3.24.0"
thiserror = "=2.0.21"
trtx = { version = "=0.9.1", default-features = false, features = ["dlopen_tensorrt_rtx", "v_1_7"] }
windows-sys = { version = "*", features = ["Win32_Foundation", "Win32_Security", "Win32_System_Memory"] }
