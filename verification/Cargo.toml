[package]
name = "modbot"
version = "0.1.0"
edition = "2021"
publish = false

[dependencies]
chrono = "=0.4.45"
diesel = { version = "=1.4.8", features = ["sqlite", "r2d2"] }
futures = "=0.1.31"
modio = "=0.3.0"
serenity = { version = "=0.6.4", default-features = false, features = ["default_native_tls"] }
typemap = "=0.3.3"
