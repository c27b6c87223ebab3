[package]
name = "cargo_mobile"
version = "0.1.0"
edition = "2021"
publish = false

[dependencies]
bicycle = "0.1"
bossy = "=0.2.1"
colored = "=2.2.0"
freedesktop_entry_parser = "1"
heck = "=0.3.3"
home = "=0.5.12"
java-properties = "=1.4.1"
log = "=0.4.34"
once-cell-regex = "=0.2.1"
path_abs = "=0.5.1"
path-slash = "=0.1.5"
serde = { version = "=1.0.229", features = ["derive"] }
serde_json = "=1.0.154"
structopt = "=0.3.26"
thiserror = "=1.0.69"
toml = "=0.5.11"
ureq = "=2.12.1"
walkdir = "=2.5.0"
yes-or-no = "=0.2.0"
