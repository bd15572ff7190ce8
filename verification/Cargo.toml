[package]
name = "wintime"
version = "0.1.0"
edition = "2021"
publish = false

[dependencies]
winapi = { version = "0.3", features = ["handleapi", "ioapiset", "jobapi2", "minwindef", "ntdef", "processthreadsapi", "profileapi", "winbase", "winnt"] }
