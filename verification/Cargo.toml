[package]
name = "rzd_coupe"
version = "0.1.0"
edition = "2021"
publish = false

[dependencies]
serde_json = "=1.0.151"
teloxide = { version = "=0.12.2", default-features = false, features = ["macros", "ctrlc_handler", "rustls"] }
tokio = { version = "=1.53.2", features = ["macros", "rt-multi-thread", "time"] }
reqwest = { version = "=0.11.27", default-features = false, features = ["cookies", "json"] }
fake-useragent = "=0.1.3"
uuid = { version = "=1.27.0", features = ["v4"] }
dptree = "=0.3.0"
log = "=0.4.34"
env_logger = { version = "=0.11.11", default-features = false }
# Pinned only to hold back teloxide's transitive dependency: takecell 0.1.2
# demands a newer rustc than this toolchain provides.
takecell = "=0.1.1"
