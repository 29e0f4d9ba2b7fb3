[package]
name = "battery_tester"
version = "0.1.0"
edition = "2021"
publish = false

[dependencies]
argh = "*"
bytes = "*"
chrono = "*"
embassy-executor = { version = "*", features = ["arch-std", "executor-thread"] }
embassy-futures = "*"
embassy-nrf = { version = "*", features = ["nrf52833", "gpiote"] }
embassy-sync = "*"
embassy-time = { version = "*", features = ["std"] }
embedded-hal-async = "*"
futures = "*"
postcard = { version = "*", features = ["use-std", "experimental-derive"] }
serde = { version = "*", features = ["derive"] }
thiserror = "*"
tinyvec = { version = "*", features = ["alloc", "std"] }
tipsy = "*"
tokio = { version = "*", features = ["full"] }
tokio-serial = { version = "*", default-features = false }
