[package]
name = "rdfreak"
version = "0.1.0"
edition = "2021"
publish = false

[dependencies]
oxrdf = "=0.3.5"
chrono = "=0.4.45"
thiserror = "=2.0.21"
oxttl = "=0.2.5"
oxigraph = { version = "=0.5.13", default-features = false }
async-trait = "=0.1.92"
syn = { version = "=2.0.119", features = ["full", "extra-traits"] }
quote = "=1.0.47"
proc-macro2 = "=1.0.107"
darling = "=0.21.3"
