[package]
name = "yuri_web"
version = "0.1.0"
edition = "2021"
publish = false

[dependencies]
actix-multipart = "0.6"
actix-web = "4"
bson = "2"
chrono = "0.4"
futures-util = "0.3"
image = "0.24"
mongodb = "2"
sanitize-filename = "0.4"
serde = { version = "1", features = ["derive"] }
uuid = { version = "1", features = ["v4"] }
web-sys = { version = "0.3", features = ["FormData", "HtmlFormElement", "FocusEvent"] }
yew = "0.19"
yew-router = "0.16"
