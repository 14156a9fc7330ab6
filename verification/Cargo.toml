[package]
name = "glyph_edit"
version = "0.1.0"
edition = "2021"
publish = false

[dependencies]
glib = "0.15"
gtk = { version = "0.15", features = ["v3_24"] }
indexmap = "=1.9.3"
once_cell = "=1.21.4"
uuid = { version = "=1.29.0", features = ["v4"] }
