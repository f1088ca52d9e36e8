[package]
name = "car_protocol"
version = "0.1.0"
edition = "2021"
publish = false

# No graphics stack among these: the client's window lives in a front end of
# its own, and app/gui.rs holds only the state behind it.
[dependencies]
bluer = { version = "=0.15.7", features = ["bluetoothd"] }
chrono = "=0.4.45"
csv = "=1.4.0"
# bluer reaches BlueZ over D-Bus. With `vendored`, libdbus is built from the
# sources that come with the binding, so no system libdbus is needed.
dbus = { version = "=0.9.12", features = ["vendored"] }
env_logger = "=0.10.2"
futures = "=0.3.34"
log = "=0.4.34"
serde = { version = "=1.0.229", features = ["derive"] }
serde_json = "=1.0.154"
serde_repr = "=0.1.21"
serialport = { version = "=4.10.1", default-features = false }
smart-default = "=0.6.0"
tokio = { version = "=1.54.1", features = ["macros", "rt", "time"] }
uuid = "=1.29.0"
