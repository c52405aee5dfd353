[package]
name = "browser_core"
version = "0.1.0"
edition = "2021"
publish = false

[dependencies]
anyhow = "1"
crossterm = "*"
image = { version = "*", default-features = false, features = ["png", "jpeg", "gif", "bmp", "ico", "tiff", "webp"] }
nerd-font-symbols = "*"
open = "*"
ratatui = "*"
trash = "*"
viuer = "*"
