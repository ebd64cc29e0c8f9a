[package]
name = "check_links"
version = "0.1.0"
edition = "2021"
publish = false

[dependencies]
colored = "1"
exitfailure = "0.5"
globset = "0.4"
grep-matcher = "0.1"
grep-regex = "0.1"
grep-searcher = "0.1"
ignore = "0.4"
isahc = "0.9"
lazy_static = "1"
regex = "1"
structopt = "0.2"
tokio = { version = "0.2", features = ["macros", "rt-threaded", "sync"] }
