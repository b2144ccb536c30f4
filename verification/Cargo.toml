[package]
name = "o3o_debugger"
version = "0.1.0"
edition = "2021"
publish = false

[dependencies]
im = "*"
simsearch = "*"
raki = "*"
vcd = "*"
ratatui = "*"
crossterm = "*"
tui-input = "*"
color-eyre = "*"
strum = "*"
strum_macros = "*"
