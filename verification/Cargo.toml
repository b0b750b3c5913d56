[package]
name = "wslapi"
version = "0.1.0"
edition = "2021"
publish = false

[dependencies]
minidl = "*"
wchar = "*"
winapi = { version = "0.3", features = ["combaseapi", "handleapi", "minwindef", "ntdef", "processthreadsapi", "synchapi", "winbase", "winerror", "winnt", "winreg", "std"] }
