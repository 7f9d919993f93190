[package]
name = "ts_lowering"
version = "0.1.0"
edition = "2021"
publish = false

[dependencies]
log = "0.4"
swc_atoms = "*"
swc_common = "*"
swc_ecma_ast = "*"
swc_ecma_utils = "*"
swc_ecma_visit = "*"
