[package]
name = "matrix_commander"
version = "0.1.0"
edition = "2021"
publish = false

[dependencies]
clap = { version = "4", features = ["derive"] }
colored = "*"
directories = "*"
dirs = "*"
matrix-sdk = { version = "*", default-features = false, features = ["rustls-tls"] }
open = "*"
regex = "1"
reqwest = { version = "*", default-features = false, features = ["rustls-tls"] }
rpassword = "*"
serde = { version = "1", features = ["derive"] }
serde_json = "1"
shellexpand = "*"
tokio = { version = "1", features = ["macros", "rt-multi-thread"] }
tracing = "*"
tracing-subscriber = { version = "*", features = ["env-filter"] }
update-informer = "*"
url = { version = "2", features = ["serde"] }
