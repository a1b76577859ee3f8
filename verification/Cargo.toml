[package]
name = "module_transformer"
version = "0.1.0"
edition = "2021"
publish = false

[dependencies]
oxc = { version = "=0.72.3", features = ["transformer", "codegen", "semantic"] }
# Not called directly: `oxc_transformer` 0.72.3 builds against this version of
# its `oxc-browserslist` dependency, and not against later 2.0 releases.
oxc-browserslist = "=2.0.0"
napi = "=2.16.17"
napi-derive = "=2.16.13"
