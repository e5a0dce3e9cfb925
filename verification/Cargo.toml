[package]
name = "scuffcommander"
version = "0.1.0"
edition = "2021"
publish = false

[dependencies]
base64 = "*"
infer = "*"
serde = { version = "1", features = ["derive"] }
serde_json = "1"
tokio = { version = "1", features = ["full"] }
obws = "*"
vtubestudio = "*"
actix-web = "4"
handlebars = "*"
directories = "*"
