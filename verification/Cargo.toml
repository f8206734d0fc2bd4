[package]
name = "loregui"
version = "0.1.0"
edition = "2021"
publish = false

[dependencies]
iced = { version = "=0.13.1", default-features = false, features = ["lazy", "tiny-skia"] }
iced_aw = { version = "=0.11.0", default-features = false, features = ["card", "selection_list"] }
preferences = "=1.1.0"
rfd = "=0.15.4"
serde_json = "1"
