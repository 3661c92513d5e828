[package]
name = "metric_video_player"
version = "0.1.0"
edition = "2021"
publish = false

[dependencies]
anyhow = "1"
chrono = { version = "=0.4.45", features = ["serde"] }
clap = { version = "4", features = ["derive"] }
egui = "0.28"
env_logger = "0.11"
ffmpeg-next = "7.0"
ffmpeg-sys-next = "7.0"
image = { version = "0.25", default-features = false, features = ["png"] }
log = "0.4"
num_cpus = "=1.17.0"
sdl2 = "=0.37.0"
serde = { version = "1", features = ["derive"] }
serde_json = "1"
sysinfo = "=0.30.13"
tokio = { version = "1", features = ["rt-multi-thread", "macros"] }
