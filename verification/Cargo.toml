[package]
name = "sept11_datasets"
version = "0.1.0"
edition = "2021"
publish = false

[dependencies]
clap = { version = "4", features = ["derive", "env"] }
color-eyre = "0.6"
colored = "2"
dialoguer = "0.11"
dirs-next = "2"
indicatif = "0.17"
lava_torrent = "0.11"
lazy_static = "1"
prettytable-rs = "0.10"
reqwest = { version = "0.11", default-features = false, features = ["rustls-tls"] }
rusqlite = { version = "0.31", features = ["bundled"] }
sha1 = "0.10"
tempdir = "0.3"
textwrap = "0.16"
thiserror = "1"
tokio = { version = "1", features = ["full"] }
url = "2"
zip = "0.6"
