[package]
name = "event_indexer"
version = "0.1.0"
edition = "2021"
publish = false

[dependencies]
chrono = { version = "=0.4.45", default-features = false, features = ["clock", "std"] }
diesel = { version = "=2.3.14", default-features = false, features = ["postgres", "r2d2", "chrono"] }
dotenv = "0.15"
ethers = { version = "=2.0.14", default-features = false, features = ["abigen"] }
eyre = "=0.6.14"
hex = "=0.4.3"
tokio = { version = "=1.54.1", features = ["rt-multi-thread", "macros", "time"] }
