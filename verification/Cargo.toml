[package]
name = "shadertoy_browser"
version = "0.6.1"
edition = "2021"
publish = false

[dependencies]
chrono = "=0.4.45"
clap = { version = "=4.6.7", features = ["cargo"] }
cocoa = "=0.27.0"
colored = "=3.1.1"
error-chain = "=0.12.4"
fern = "=0.7.1"
floating-duration = "=0.1.2"
foreign-types-shared = "=0.3.1"
indicatif = "=0.18.6"
libc = "=0.2.191"
log = "=0.4.34"
metal = "=0.33.0"
objc = "=0.2.7"
open = "=5.4.5"
rayon = "=1.12.0"
reqwest = { version = "=0.12.28", features = ["blocking", "json"] }
rust-base58 = "=0.0.4"
serde = { version = "=1.0.229", features = ["derive"] }
serde_json = "=1.0.154"
sha3 = "=0.12.0"
shaderc = "=0.10.1"
spirv_cross = { version = "=0.23.1", features = ["msl"] }
thread_profiler = "=0.3.0"
winit = "=0.28.7"
