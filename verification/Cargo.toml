[package]
name = "imdb_bot"
version = "0.1.0"
edition = "2021"
publish = false

[dependencies]
serde_json = "*"
serde = "*"
ws = "*"
url = "*"
argparse = "*"
env_logger = "*"
failure = "*"
imdb-index = "*"
