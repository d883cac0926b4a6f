[package]
name = "veruna"
version = "0.1.0"
edition = "2021"
publish = false

[dependencies]
regex = "=1.13.1"
argon2 = { version = "=0.5.3", features = ["std"] }
crossbeam-channel = "=0.5.17"
url = "=2.5.8"
serde = { version = "=1.0.229", features = ["derive"] }
serde_json = "=1.0.154"
tokio = { version = "=1.54.1", features = ["sync", "rt", "rt-multi-thread"] }
async-trait = "=0.1.92"
log = "=0.4.35"
surrealdb = { version = "=1.3.1", default-features = false, features = ["kv-mem"] }
# Not used by this crate's code: surrealdb's `revision` derive builds only
# with darling 0.20, and this line keeps the resolver on that version.
darling = "=0.20.10"
typetag = "=0.2.23"
linq = "=0.0.1-release"
