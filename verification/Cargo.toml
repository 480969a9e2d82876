[package]
name = "context_error"
version = "0.1.0"
edition = "2021"
publish = false

[dependencies]
annotate-snippets = "0.11"
anstyle = "1"
nom = "7"
proc-macro2 = { version = "1", features = ["span-locations"] }
quote = "1"
syn = { version = "2", features = ["full"] }
