[package]
name = "rtree_test"
version = "0.1.0"
edition = "2021"
publish = false

[dependencies]
bitmaps = "2"
typenum = "1"
image = { version = "*", default-features = false, features = ["png"] }
minifb = "*"
serde = { version = "1", features = ["derive"] }
serde_json = "1"
