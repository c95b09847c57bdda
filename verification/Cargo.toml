[package]
name = "splitter"
version = "0.1.0"
edition = "2021"
publish = false

[dependencies]
clap = "=2.34.0"
pg_query = "=6.2.1"
rusqlite = "=0.40.2"
xxhash-rust = { version = "=0.8.19", features = ["xxh3"] }

[dev-dependencies]
regex = "=1.13.1"
