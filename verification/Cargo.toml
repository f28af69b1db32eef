[package]
name = "rjvm"
version = "0.1.0"
edition = "2021"
publish = false

[dependencies]
cesu8 = "=1.1.0"
log = "=0.4.35"
simple_logger = "=5.2.0"
thiserror = "=2.0.21"
zip = { version = "=9.2.2", default-features = false, features = ["deflate"] }
