[package]
name = "penguin_engine"
version = "0.1.0"
edition = "2021"
publish = false

[dependencies]
ash = "=0.36.0"
ash-window = "=0.9.1"
winit = "=0.26.1"
legion = "=0.4.0"
log = "0.4"
fern = { version = "=0.6.2", features = ["colored"] }
chrono = "0.4"
anyhow = "1"
macaw = "=0.30.0"
wavefront = "=0.2.3"
shaderc = "0.7"
