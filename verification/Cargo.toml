[package]
name = "pop_analytics_panel"
version = "0.1.0"
edition = "2021"
publish = false

[dependencies]
flate2 = "1"
serde_json = "1"
gtk = "0.15"
glib = "0.15"
gtk-sys = "0.15"
relm = "0.23"
relm-derive = "0.23"
libhandy = "0.9"
cascade = "1"
concat-in-place = "1"
dirs = "4"
i18n-embed = { version = "0.13", features = ["fluent-system", "desktop-requester"] }
