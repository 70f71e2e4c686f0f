[package]
name = "edgedb_client"
version = "0.1.0"
edition = "2021"
publish = false

[dependencies]
async-std = "=1.13.2"
bytes = "=1.12.1"
edgedb-protocol = "=0.2.0"
futures-util = "=0.3.34"
proc-macro2 = "=1.0.107"
syn = { version = "=1.0.109", features = ["full"] }
tls-api = { version = "=0.12.0", default-features = false, features = ["runtime-async-std"] }
typemap = "=0.3.3"
