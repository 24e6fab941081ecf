[package]
name = "playit"
version = "1.0.0"
edition = "2021"
publish = false

[dependencies]
clap = { version = "=4.6.7", features = ["derive"] }
dirs = "=6.0.0"
dotenv = "=0.15.0"
futures-util = { version = "=0.3.34", features = ["sink"] }
hex = "=0.4.3"
httpdate = "=1.0.3"
interprocess = { version = "=2.4.7", features = ["tokio"] }
libc = "=0.2.191"
rand = "=0.9.5"
reqwest = { version = "=0.12.28", default-features = false, features = ["json", "rustls-tls"] }
serde = { version = "=1.0.229", features = ["derive"] }
serde_json = "=1.0.154"
serde_path_to_error = "=0.1.20"
serde_yml = "=0.0.12"
tokio = { version = "=1.54.1", features = ["full"] }
tokio-util = { version = "=0.7.20", features = ["codec"] }
toml = "=0.9.12"
tracing = "=0.1.44"
tracing-appender = "=0.2.5"
tracing-rolling-file = "*"
tracing-subscriber = { version = "=0.3.23", features = ["env-filter"] }
uuid = { version = "=1.29.0", features = ["serde"] }
widestring = "=1.2.1"
windows-sys = { version = "=0.61.2", features = ["Win32_Foundation", "Win32_Security", "Win32_Security_Authorization", "Win32_Storage_FileSystem", "Win32_System_Threading"] }
