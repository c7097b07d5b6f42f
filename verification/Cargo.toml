[package]
name = "rguard"
version = "0.1.0"
edition = "2021"
publish = false

[dependencies]
anyhow = "1"
chrono = { version = "0.4", default-features = false, features = ["clock", "std"] }
clap = { version = "4", features = ["derive"] }
clap_complete = "4"
dirs = "*"
ignore = "0.4"
indicatif = "0.17"
inquire = "*"
owo-colors = { version = "4", features = ["supports-colors"] }
reqwest = { version = "0.12", default-features = false }
semver = "1"
serde = { version = "1", features = ["derive"] }
serde_json = "1"
serde_yaml_ng = "*"
shlex = "1"
tokio = { version = "1", features = ["full"] }
tree-sitter = "*"
tree-sitter-bash = "*"
tree-sitter-c-sharp = "*"
tree-sitter-go = "*"
tree-sitter-java = "*"
tree-sitter-javascript = "*"
tree-sitter-php = "*"
tree-sitter-python = "*"
tree-sitter-ruby = "*"
tree-sitter-rust = "*"
tree-sitter-typescript = "*"
walkdir = "2"
which = "*"
