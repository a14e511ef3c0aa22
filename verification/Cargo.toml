[package]
name = "actions_transform"
version = "0.1.0"
edition = "2021"
publish = false

[dependencies]
anyhow = "=1.0.104"
async-trait = "=0.1.92"
swc_core = { version = "*", default-features = false, features = ["common", "ecma_ast", "ecma_visit"] }
