[package]
name = "rhap"
version = "0.1.0"
edition = "2021"
publish = false

[dependencies]
anyhow = "1"
log = "0.4"
clap = { version = "4", features = ["derive"] }
ratatui = "0.29"
crossterm = "0.28"
tokio = { version = "1", features = ["rt-multi-thread", "macros", "signal", "sync", "time"] }
ringbuf = "0.4"
symphonia = { version = "0.5", features = ["all"] }
rubato = "*"
audioadapter-buffers = "*"
glob = "0.3"
rand = "0.9"
rayon = "1"
arc-swap = "1"
tempfile = "3"
ratatui-image = "*"
image = { version = "0.25", default-features = false, features = ["jpeg", "png"] }
souvlaki = "*"
alsa = "*"
pipewire = "*"
libc = "0.2"
num-integer = "0.1"
