[package]
name = "mcvideo"
version = "0.1.0"
edition = "2021"
publish = false

[dependencies]
num-integer = "=0.1.47"
rayon = "=1.12.0"
clap = { version = "=4.6.7", features = ["derive"] }
env_logger = "=0.10.2"
log = "=0.4.34"
tokio = { version = "=1.54.1", features = ["rt-multi-thread"] }
hyper = { version = "=0.14.32", features = ["server", "http1", "tcp"] }
zip = "=0.6.6"
ffmpeg-next = "=6.1.1"
valence = "=0.2.0-alpha.1"
