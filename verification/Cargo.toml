[package]
name = "boxpigma"
version = "0.1.0"
edition = "2021"
publish = false

[dependencies]
url = "=2.5.8"
unicode-width = "=0.2.3"
serde = { version = "=1.0.229", features = ["derive"] }
thiserror = "=2.0.21"
time = { version = "=0.3.55", features = ["formatting", "local-offset", "macros"] }
lofty = "=0.25.5"
ratatui = { version = "*", default-features = false }
