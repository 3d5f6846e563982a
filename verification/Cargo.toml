[package]
name = "jira_cli"
version = "0.1.0"
edition = "2021"
publish = false

[dependencies]
clearscreen = "*"
ellipse = "*"
serde = { version = "1", features = ["derive"] }
serde_json = "1"
