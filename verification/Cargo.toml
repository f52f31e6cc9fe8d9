[package]
name = "nothing"
version = "0.1.0"
edition = "2021"
publish = false

[dependencies]
clap = { version = "=4.6.7", features = ["derive"] }
ctrlc = "=3.5.2"
msgbox = "*"
sdl2 = { version = "*", features = ["ttf"] }
winapi = { version = "=0.3.9", features = ["wincon", "winuser"] }
