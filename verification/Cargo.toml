[package]
name = "excel_tui"
version = "0.1.0"
edition = "2021"
publish = false

[dependencies]
calamine = "*"
crossterm = "*"
csv = "*"
ratatui = "*"
rust_xlsxwriter = "*"
