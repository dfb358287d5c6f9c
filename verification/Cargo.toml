[package]
name = "swordfish"
version = "0.1.0"
edition = "2021"
publish = false

[dependencies]
fuzzy-matcher = "*"
url = "*"
chrono = "*"
rusqlite = { version = "*", features = ["bundled"] }
dirs = "*"
glob = "*"
ignore = "*"
num_cpus = "*"
rayon = "*"
crossbeam-channel = "*"
serde = { version = "*", features = ["derive"] }
serde_json = "*"
thiserror = "*"
fend-core = "*"
icns = "*"
plist = "*"
reqwest = { version = "*", default-features = false, features = ["blocking", "rustls-tls"] }
