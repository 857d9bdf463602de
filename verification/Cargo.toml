[package]
name = "aeroforge"
version = "0.1.0"
edition = "2021"
publish = false

[dependencies]
serde = { version = "1", features = ["derive"] }
serde_json = "1"
regex = "1"
log = "0.4"
libloading = "0.8"
windows-sys = { version = "0.59", features = ["Win32_Foundation", "Win32_Storage_FileSystem", "Win32_System_Services", "Win32_System_Threading", "Win32_System_IO", "Win32_Devices_DeviceAndDriverInstallation", "Win32_Security"] }
tokio = { version = "1", features = ["rt", "net", "time", "macros"] }
futures-util = { version = "0.3", features = ["sink"] }
tokio-tungstenite = { version = "0.24", features = ["native-tls"] }
native-tls = "0.2"
