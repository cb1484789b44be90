[package]
name = "imgproc"
version = "0.1.0"
edition = "2021"
publish = false

[dependencies]
image = { version = "0.25", default-features = false, features = ["gif", "png", "webp"] }
png = "0.17"
psd = "0.3"
