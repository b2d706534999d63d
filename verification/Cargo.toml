[package]
name = "rustclr"
version = "0.1.0"
edition = "2021"
publish = false

[dependencies]
windows-core = "*"
windows-sys = { version = "*", features = [
    "Win32_Foundation",
    "Win32_Storage_FileSystem",
    "Win32_System_Com",
    "Win32_System_Com_StructuredStorage",
    "Win32_System_LibraryLoader",
    "Win32_System_Memory",
    "Win32_System_Ole",
    "Win32_System_Variant",
    "Win32_UI_Shell",
] }
