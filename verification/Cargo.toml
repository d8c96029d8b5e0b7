[package]
name = "sap_scripting"
version = "0.1.0"
edition = "2021"
publish = false

[dependencies]
log = "=0.4.34"
tracing = "=0.1.44"
windows = { version = "=0.58.0", features = [
    "Win32_Foundation",
    "Win32_System_Com",
    "Win32_System_Ole",
    "Win32_System_Variant",
] }
