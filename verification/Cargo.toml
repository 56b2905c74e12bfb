[package]
name = "kra_file"
version = "0.1.0"
edition = "2021"
publish = false

[dependencies]
quick-xml = "=0.37.5"
uuid = "=1.29.0"
zip = { version = "=9.1.0", default-features = false }
thiserror = "=2.0.21"
ordered-float = "*"
