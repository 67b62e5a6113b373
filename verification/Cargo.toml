[package]
name = "satty_ipc"
version = "0.1.0"
edition = "2021"
publish = false

[dependencies]
anyhow = "1"
chrono = "0.4"
clap = { version = "4", features = ["derive"] }
gdk-pixbuf = "*"
gio = "*"
glib = "*"
gtk4-layer-shell = "*"
libloading = "0.8"
relm4 = "*"
relm4-icons = "*"
tokio = { version = "1", features = ["time"] }
xdg = "3"
