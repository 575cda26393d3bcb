[package]
name = "variant_gate"
version = "0.1.0"
edition = "2021"
publish = false

[dependencies]
anyhow = "=1.0.104"
async-graphql = "=7.2.1"
async-graphql-warp = "=7.2.1"
tokio = { version = "=1.53.2", features = ["macros", "rt-multi-thread"] }
warp = "=0.3.7"
