[package]
name = "memory_manager"
version = "0.1.0"
edition = "2021"
publish = false

[dependencies]
libc = "0.2"
winapi = { version = "0.3", features = ["basetsd", "errhandlingapi", "memoryapi", "minwindef", "sysinfoapi", "winerror", "winnt"] }
