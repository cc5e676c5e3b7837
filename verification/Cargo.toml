[package]
name = "dzsspeedy"
version = "0.1.0"
edition = "2021"
publish = false

[dependencies]
base64 = "*"
png = "*"
serde = { version = "*", features = ["derive"] }
windows = { version = "0.58", features = ["Win32_Foundation", "Win32_Storage_FileSystem", "Win32_System_Pipes", "Win32_System_Threading", "Win32_System_Memory", "Win32_System_Diagnostics_ToolHelp", "Win32_System_LibraryLoader", "Win32_UI_WindowsAndMessaging", "Win32_Security", "Win32_Security_Authorization", "Win32_System_SystemInformation", "Win32_Graphics_Gdi", "Win32_System_ProcessStatus", "Win32_UI_Shell"] }
