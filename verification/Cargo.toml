[package]
name = "kbw"
version = "0.1.0"
edition = "2021"
publish = false

[dependencies]
num = "0.4"
rand = "0.8"
rayon = "1"
itertools = "0.12"
log = "0.4"
regex = "1"
quizx = "*"
