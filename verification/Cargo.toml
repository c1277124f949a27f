[package]
name = "pam_okta_auth"
version = "0.1.0"
edition = "2021"
publish = false

[dependencies]
pamsm = { version = "*", features = ["libpam"] }
serde = { version = "1", features = ["derive"] }
serde_json = "1"
toml = "*"
ureq = { version = "3", features = ["json"] }
