[package]
name = "ssh_manager"
version = "0.1.0"
edition = "2021"
publish = false

[dependencies]
aes-gcm = "0.10"
base64 = "0.22"
console = "0.15"
crossterm = "0.28"
dialoguer = { version = "0.11", features = ["fuzzy-select"] }
dirs = "5"
hmac = "0.12"
indicatif = "0.17"
pbkdf2 = "0.12"
rand = "0.8"
ratatui = "0.29"
rpassword = "7"
serde = { version = "1", features = ["derive"] }
serde_json = { version = "1", features = ["preserve_order"] }
sha2 = "0.10"
ssh2 = "0.9"
ssh2-config = "*"
tui-textarea = "0.7"
whoami = "1"
