[package]
name = "translators"
version = "0.1.0"
edition = "2021"
publish = false

[dependencies]
whatlang = "*"
md5 = "*"
sha256 = "*"
regex = "*"
serde = { version = "*", features = ["derive"] }
serde_json = "*"
serde_urlencoded = "*"
reqwest = { version = "*", default-features = false, features = ["blocking", "json"] }
chrono = "*"
envy = "*"
csv = "*"
codegen = "*"
