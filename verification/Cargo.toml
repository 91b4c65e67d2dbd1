[package]
name = "riptide_agent"
version = "0.1.0"
edition = "2021"
publish = false

[dependencies]
whoami = "=1.5.2"
tokio = { version = "=1.53.2", features = ["full"] }
tokio-tungstenite = "=0.30.0"
futures = "=0.3.34"
ureq = { version = "=2.12.1", features = ["json"] }
toml = "=0.8.23"
serde = { version = "=1.0.229", features = ["derive"] }
bincode = "=1.3.3"
dirs = "=5.0.1"
log = "=0.4.34"
pretty_env_logger = "=0.5.0"
diesel = { version = "=2.3.13", features = ["sqlite", "returning_clauses_for_sqlite_3_35"] }
libsqlite3-sys = { version = "*", features = ["bundled"] }
