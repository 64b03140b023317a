[package]
name = "xchannel"
version = "0.1.0"
edition = "2021"
publish = false

[dependencies]
async-trait = "0.1"
byteorder = "1"
bytes = "1"
futures-util = { version = "0.3", default-features = false, features = ["sink", "std"] }
log = "0.4"
serde = { version = "1", features = ["derive"] }
serde_derive = "1"
thiserror = "1"
tokio = { version = "1", features = ["macros", "rt-multi-thread", "net", "io-util", "sync"] }
tokio-util = { version = "0.7", default-features = false, features = ["codec"] }
tracing = "0.1"
tracing-appender = "0.2"
tracing-subscriber = { version = "0.3", default-features = false, features = ["fmt", "registry", "std"] }
warp = { version = "0.3", default-features = false }
