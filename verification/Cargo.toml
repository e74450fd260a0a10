[package]
name = "hot_lib_reloader_macro"
version = "0.1.0"
edition = "2021"
publish = false

[dependencies]
proc-macro2 = { version = "=1.0.107", features = ["span-locations"] }
quote = "=1.0.47"
syn = { version = "2", features = ["full", "extra-traits"] }
