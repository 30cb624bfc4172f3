[package]
name = "lenzu"
version = "0.1.7"
edition = "2021"
publish = false

[dependencies]
serde_json = "1"
mecab-furigana-rs = "*"
isolang = "2"
tokio = { version = "1", features = ["rt", "rt-multi-thread", "time"] }
tonic = "0.12"
prost = "0.13"
x11rb = "0.13"
libc = "0.2"
chrono = "0.4"
