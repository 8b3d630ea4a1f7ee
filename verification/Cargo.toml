[package]
name = "ouch"
version = "0.1.0"
edition = "2021"
publish = false

[dependencies]
bzip2 = "=0.6.1"
fs-err = "=3.3.2"
gzp = { version = "=2.0.4", default-features = false, features = ["snappy_default"] }
lz4_flex = "=0.14.0"
sevenz-rust = "=0.6.1"
tempfile = "=3.27.0"
xz2 = { version = "=0.1.7", features = ["static"] }
zstd = "=0.14.0"

[dev-dependencies]
flate2 = "=1.1.10"
snap = "=1.1.2"
tar = "=0.4.46"
zip = { version = "=8.6.0", default-features = false }
