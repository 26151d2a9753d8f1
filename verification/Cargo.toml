[package]
name = "fiv"
version = "0.1.0"
edition = "2021"
publish = false

[dependencies]
image = "*"
itertools = "*"
pathdiff = "*"
tree_magic_mini = { version = "*", features = ["with-gpl-data"] }
clap = { version = "*", features = ["derive"] }
parse-size = "*"
