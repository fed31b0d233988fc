[package]
name = "module_pipeline"
version = "0.1.0"
edition = "2021"
publish = false

[dependencies]
sugar_path = "=3.0.0"
glob = "=0.3.4"
serde_json = "=1.0.154"
dashmap = "=5.5.3"
rustc-hash = "=1.1.0"
oxc_resolver = "=11.24.3"
rspack_sources = "=0.102.9"
serde = { version = "=1.0.229", features = ["derive"] }
clap = "=4.6.7"
tokio = { version = "=1.54.1", features = ["sync", "rt"] }
async-trait = "=0.1.92"
swc_core = { version = "=82.2.0", features = ["common", "ecma_ast", "ecma_visit"] }
napi = { version = "2", features = ["napi4"] }
napi-derive = "2"
