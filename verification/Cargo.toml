[package]
name = "mac-notification-sys"
version = "0.1.0"
edition = "2021"
publish = false

[dependencies]
objc2 = "0.6"
objc2-foundation = "0.3"
objc2-user-notifications = "0.3"
block2 = "0.6"
futures-channel = "0.3"
futures-lite = "2"
log = "0.4"
thiserror = "2"
time = "0.3"
icrate = { version = "0.1", features = ["Foundation", "Foundation_NSProcessInfo"] }
lazy_static = "1"
objc-foundation = "0.1"
objc_id = "0.1"
