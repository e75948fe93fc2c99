[package]
name = "crossterm_winapi"
version = "0.1.0"
edition = "2021"
publish = false

[dependencies]
winapi = { version = "0.3", default-features = false, features = ["consoleapi", "wincon", "winnt", "minwindef", "ntdef", "processenv", "winbase", "handleapi"] }
