[package]
name = "onedark_nvim_rs"
version = "0.1.0"
edition = "2021"
publish = false

[dependencies]
nvim-oxi = { version = "=0.5.1", features = ["neovim-0-10"] }
mlua = { version = "=0.9.9", features = ["luajit", "module", "serialize"] }
once_cell = "=1.21.4"
serde = { version = "=1.0.229", features = ["derive"] }
