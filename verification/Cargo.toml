[package]
name = "var_quantity"
version = "0.1.0"
edition = "2021"
publish = false

[dependencies]
dyn_quantity = { version = "=0.5.13", features = ["serde", "from_str"] }
dyn-clone = "=1.0.20"
horner = "=0.2.2"
num = "=0.4.3"
serde = { version = "=1.0.229", features = ["derive"] }
serde-value = "=0.7.0"
typetag = "=0.2.23"
deserialize_untagged_verbose_error = "=0.1.8"
