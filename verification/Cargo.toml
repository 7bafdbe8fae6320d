[package]
name = "sn_bindgen"
version = "0.1.0"
edition = "2021"
publish = false

[dependencies]
syn = { version = "*", features = ["full"] }
toml = "*"
colored = "*"
diff = "*"
