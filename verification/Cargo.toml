[package]
name = "nexish"
version = "0.1.0"
edition = "2021"
publish = false

[dependencies]
shell-words = "*"
reedline = "*"
nu-ansi-term = "*"
chrono = "*"
dirs = "*"
git2 = { version = "*", default-features = false }
os_info = "*"
whoami = "*"
unix_perms = "*"
