[package]
name = "asyncrt"
version = "0.1.0"
edition = "2021"
publish = false

[dependencies]
mio = { version = "=0.8.11", features = ["net", "os-poll"] }
once_cell = "=1.21.4"
dummy-waker = "=1.1.0"
isahc = { version = "=1.8.3", default-features = false, features = ["text-decoding"] }
reqwest = { version = "=0.11.27", default-features = false }
tokio = { version = "=1.54.1", features = ["rt-multi-thread"] }
