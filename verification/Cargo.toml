[package]
name = "xiallocontrol"
version = "0.1.0"
edition = "2021"
publish = false

[dependencies]
uuid = "=1.29.0"
serde = { version = "=1.0.229", features = ["derive"] }
toml = "=1.1.8"
gilrs = "=0.11.2"
hidapi = "=2.6.7"
enigo = "=0.6.1"
log = "=0.4.34"
rusty-xinput = "*"
