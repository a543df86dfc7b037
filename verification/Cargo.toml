[package]
name = "tictactoe"
version = "0.1.0"
edition = "2021"
publish = false

[dependencies]
rand = "=0.8.8"
yew = { version = "0.21", features = ["csr"] }
gloo = { version = "0.11", default-features = false, features = ["timers"] }
