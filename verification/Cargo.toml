[package]
name = "netfw"
version = "0.1.0"
edition = "2021"
publish = false

[dependencies]
bitflags = "=1.3.2"
com = "=0.6.0"
winapi = { version = "=0.3.9", features = ["oaidl", "oleauto", "wtypes", "wtypesbase", "ntdef", "minwindef", "guiddef", "winnt"] }
