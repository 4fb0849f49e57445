[package]
name = "hydrascan"
version = "0.1.0"
edition = "2021"

[dependencies]
md-5 = "0.10"
sha1 = "0.10"
digest = "0.10"
chrono = "0.4"
