[package]
name = "continuum"
version = "0.1.0"
edition = "2021"
publish = false

[dependencies]
uuid = { version = "1", features = ["v4"] }
serde = { version = "1", features = ["derive"] }
serde_json = "1"
rusqlite = { version = "0.32", features = ["bundled"] }
actix-web = { version = "4", default-features = false, features = ["macros"] }
tokio = { version = "1", features = ["macros", "rt-multi-thread", "time"] }
tracing = "0.1"
tracing-subscriber = { version = "0.3", features = ["env-filter"] }
tracing-actix-web = "0.7"
enable-ansi-support = "0.2"
reqwest = { version = "0.12", default-features = false, features = ["json"] }
ureq = { version = "3", default-features = false }
clap = { version = "4", features = ["derive"] }
dialoguer = "0.11"
lazy_static = "1"
rusttype = "0.9"
gl = "0.14"
glutin = "0.29"
qmetaobject = "0.2"
