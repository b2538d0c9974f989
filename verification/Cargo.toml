[package]
name = "inexor_rgf"
version = "0.1.0"
edition = "2021"
publish = false

[dependencies]
uuid = { version = "=1.29.0", features = ["v4"] }
portpicker = "=0.1.1"
indradb-lib = { version = "=3.0.4", default-features = false }
serde_json = "=1.0.154"
tokio = { version = "=1.54.1", features = ["rt-multi-thread", "macros", "time", "sync"] }
tabled = "=0.14.0"
async-graphql = { version = "=7.2.1", default-features = false, features = ["uuid"] }
async-trait = "0.1"
