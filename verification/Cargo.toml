[package]
name = "dbus_console"
version = "0.1.0"
edition = "2021"
publish = false

[dependencies]
zbus = { version = "3", features = ["xml"] }
zvariant = "3"
serde = "1"
tui = "0.19"
crossterm = "0.25"
