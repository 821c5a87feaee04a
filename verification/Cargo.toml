[package]
name = "zloader"
version = "0.1.0"
edition = "2021"
publish = false

[dependencies]
cpp_demangle = "=0.5.1"
object = "=0.40.0"
lzma-rs = "=0.3.0"
shell-quote = "=0.8.0"
nix = { version = "=0.31.3", features = ["ptrace", "signal", "process", "uio", "resource"] }
libc = "=0.2.191"
aya = "=0.14.0"
aya-log = "=0.3.0"
tokio = { version = "=1.54.1", features = ["macros", "rt-multi-thread", "net"] }
clap = { version = "=4.6.7", features = ["derive"] }
log = "=0.4.34"
android_logger = "=0.15.1"
anyhow = "=1.0.104"
rsprocmaps = "=0.3.2"
procfs = "=0.18.0"
rustix = { version = "=1.1.5", features = ["thread"] }
libloading = "=0.9.0"
jni-sys = "=0.4.1"
glob = "=0.3.4"
mozdevice = "=0.5.5"
sendfd = "=0.4.5"
bincode = "=2.0.1"
memfd = "=0.6.6"
notify = "*"
rusqlite = { version = "*", features = ["bundled"] }
