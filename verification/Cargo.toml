[package]
name = "serenity_ctrlc"
version = "0.3.0"
edition = "2021"
publish = false

[dependencies]
ctrlc = "3"
serenity = "0.10"
tokio = { version = "1", features = ["rt", "rt-multi-thread", "sync", "time"] }

[dev-dependencies]
nix = { version = "*", features = ["signal"] }
