[package]
name = "hotkey_core"
version = "0.1.0"
edition = "2021"
publish = false

[dependencies]
anyhow = "*"
clap = { version = "*", features = ["derive"] }
ctrlc = "*"
env_logger = "*"
evdev = "=0.13.2"
libc = "*"
log = "*"
nix = { version = "=0.31.3", features = ["fs"] }
ollama-rs = "=0.3.6"
reqwest = { version = "=0.12.28", default-features = false, features = ["json"] }
tokio = { version = "*", features = ["macros", "rt-multi-thread", "process", "io-util", "time"] }
