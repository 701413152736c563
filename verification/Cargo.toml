[package]
name = "sysdash"
version = "0.1.0"
edition = "2021"
publish = false

[dependencies]
crossterm = "=0.29.0"
ratatui = "=0.30.2"
tokio = { version = "=1.53.2", features = ["rt-multi-thread", "macros", "sync", "time"] }
windows = { version = "=0.58.0", features = [
    "Win32_Foundation",
    "Win32_Security",
    "Win32_System_ProcessStatus",
    "Win32_System_SystemInformation",
    "Win32_System_Threading",
    "Win32_System_Services",
    "Win32_System_RestartManager",
    "Win32_NetworkManagement_IpHelper",
    "Win32_Networking_WinSock",
] }
