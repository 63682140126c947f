[package]
name = "prtgn"
version = "0.1.0"
edition = "2021"
publish = false

[dependencies]
prtgn_encoding = "=0.3.2"
colored = "=3.1.1"
hound = "=3.5.1"
claxon = "=0.4.3"
clap = { version = "4", features = ["derive"] }
color-eyre = { version = "0.6", default-features = false }
crossterm = "0.28"
image = { version = "0.25", default-features = false, features = ["png", "jpeg", "ico"] }
indicatif = "0.17"
ratatui = "0.29"
ratatui-image = { version = "8", default-features = false, features = ["crossterm"] }
reqwest = { version = "0.12", default-features = false }
rodio = { version = "0.21", default-features = false, features = ["wav", "flac"] }
tokio = { version = "1", features = ["rt-multi-thread", "macros", "sync", "time"] }
tui-textarea = "0.7"
