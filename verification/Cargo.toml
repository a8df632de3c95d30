[package]
name = "passthrough_fs"
version = "0.1.0"
edition = "2021"
publish = false

[dependencies]
libc = "=0.2.191"
windows-sys = { version = "=0.61.2", features = ["Wdk_Foundation", "Wdk_Storage_FileSystem", "Win32_Foundation", "Win32_Security", "Win32_Storage_FileSystem", "Win32_System_IO", "Win32_System_Memory", "Win32_System_SystemInformation", "Win32_System_SystemServices", "Win32_System_Threading", "Win32_System_Kernel"] }
