[package]
name = "time_tracker"
version = "0.1.0"
edition = "2021"
publish = false

[dependencies]
url = "=2.5.8"
chrono = { version = "=0.4.45", default-features = false, features = ["clock", "std", "serde"] }
icu_locale_core = { version = "=2.4.0", features = ["alloc"] }
serde = { version = "=1.0.229", features = ["derive"] }
serde_json = "=1.0.154"
reqwest = { version = "=0.12.28", default-features = false, features = ["json", "rustls-tls"] }
tokio = { version = "=1.54.1", features = ["macros", "rt-multi-thread", "io-std", "io-util"] }
keyring = { version = "=3.6.3", features = ["linux-native"] }
thiserror = "=2.0.21"
async-trait = "=0.1.92"
