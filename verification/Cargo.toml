[package]
name = "gix_core"
version = "0.1.0"
edition = "2021"
publish = false

[dependencies]
bstr = "=1.13.1"
git-validate = "=0.7.3"
gix-config = "=0.62.2"
gix-discover = "=0.57.1"
gix-features = "=0.50.0"
gix-fs = "=0.24.1"
gix-hash = { version = "=0.28.1", features = ["sha1"] }
gix-odb = "=0.87.0"
gix-path = "=0.14.1"
gix-ref = "=0.69.1"
gix-sec = "=0.16.1"
gix-trace = "=0.3.1"
gix-utils = "=0.5.2"
serde = { version = "=1.0.229", features = ["derive"] }
thiserror = "=2.0.21"
