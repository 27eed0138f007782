[package]
name = "charsub"
version = "0.1.0"
edition = "2021"
publish = false

[dependencies]
smallvec = "1"
hashbrown = "0.14"
threadpool = "1"
tokio = { version = "1", default-features = false, features = ["rt-multi-thread"] }
structopt = "0.3"
