[package]
name = "pixelpath"
version = "0.1.0"
edition = "2021"
publish = false

[dependencies]
once_cell = "1"
sxd-document = "0.3"
windows = { version = "0.52", features = ["Win32_Foundation", "Win32_Graphics_Gdi", "Win32_System_LibraryLoader", "Win32_System_Threading", "Win32_UI_Controls_Dialogs", "Win32_UI_Input_KeyboardAndMouse", "Win32_UI_WindowsAndMessaging"] }
