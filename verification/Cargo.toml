[package]
name = "bi_cli"
version = "0.1.0"
edition = "2021"
publish = false

[dependencies]
url = "2"
scim-filter = "*"
regex = "1"
jsonwebtoken = "9"
convert_case = "0.6"
serde = { version = "1", features = ["derive"] }
serde_json = "1"
reqwest = { version = "0.12", default-features = false, features = ["json"] }
reqwest-middleware = { version = "0.4", default-features = false, features = ["json"] }
tokio = { version = "1", features = ["macros", "rt-multi-thread", "time"] }
clap = { version = "4", features = ["derive"] }
clap-markdown = "*"
async-trait = "0.1"
log = "0.4"
anyhow = "1"
http = "1"
