[package]
name = "rust-search"
version = "0.1.0"
edition = "2021"
publish = false

[dependencies]
crossbeam-channel = "=0.5.17"
grep-matcher = "=0.1.9"
grep-regex = "=0.1.14"
grep-searcher = "=0.1.17"
ignore = "=0.4.34"
memmap2 = "=0.9.12"
once_cell = "=1.21.4"
rayon = "=1.12.0"
regex = "=1.13.1"
thiserror = "=1.0.69"
jni = "=0.21.1"

[dev-dependencies]
tempfile = "=3.27.0"
