[package]
name = "mm2tracker"
version = "0.1.0"
edition = "2021"
publish = false

[dependencies]
winapi = { version = "0.3", features = ["winuser", "wingdi", "windef", "minwindef", "libloaderapi", "commctrl", "uxtheme", "windowsx", "combaseapi", "objbase", "winerror"] }
