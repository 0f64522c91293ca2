[package]
name = "rustc_codegen_gcc"
version = "0.1.0"
edition = "2021"
publish = false

[dependencies]
gccjit = { version = "=7.3.0", features = ["dlopen"] }
target-lexicon = "=0.13.5"
