[package]
name = "chissu-pam"
version = "0.1.0"
edition = "2021"
publish = false

[dependencies]
aes-gcm = "0.10"
base64 = "0.22"
rand = "0.8"
serde = { version = "1", features = ["derive"] }
serde_json = "1"
keyring = "2"
nix = { version = "0.27", features = ["user", "signal", "process"] }
libc = "0.2"
toml = "0.8"
tempfile = "3"
chrono = "0.4"
uuid = { version = "1", features = ["v4"] }
thiserror = "1"
whoami = "1"
image = { version = "0.24", default-features = false, features = ["png"] }
v4l = "0.14"
zbus = "3"
pam-sys = "0.5"
syslog = "6"
clap = { version = "4", features = ["derive"] }
tracing = "0.1"
tracing-subscriber = { version = "0.3", features = ["env-filter"] }
dlib-face-recognition = "0.3"
