[package]
name = "porthole_gui"
version = "0.1.0"
edition = "2021"
publish = false

[dependencies]
futures-util = "0.3"
gtk4 = "*"
ipnet = "2"
libadwaita = { version = "*", features = ["v1_5"] }
zbus = "5"
