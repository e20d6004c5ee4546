[package]
name = "modulo"
version = "0.1.0"
edition = "2021"
publish = false

[dependencies]
anyhow = "=1.0.104"
libopenmpt-sys = "=0.3.0"
log = "=0.4.34"
reqwest = { version = "=0.12.28", default-features = false, features = ["rustls-tls"] }
serenity = "=0.12.5"
sha256 = { version = "=1.6.0", default-features = false }
symphonia = { version = "0.5", default-features = false }
tokio = { version = "=1.54.1", features = ["macros", "rt-multi-thread", "signal", "sync", "time"] }
tracing-subscriber = { version = "=0.3.23", default-features = false, features = ["fmt", "env-filter"] }
