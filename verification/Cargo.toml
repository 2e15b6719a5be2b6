[package]
name = "greentty"
version = "0.1.0"
edition = "2021"
publish = false

[dependencies]
vte = "0.3"
arrayvec = "0.4"
glium = "0.24"
harfbuzz_rs = { version = "1.0", features = ["rusttype"] }
rusttype = { version = "0.7", features = ["gpu_cache"] }
widestring = "0.4"
winapi = { version = "0.3", features = ["basetsd", "consoleapi", "handleapi", "minwindef", "namedpipeapi", "ntdef", "processthreadsapi", "winbase", "wincontypes", "winnt"] }
