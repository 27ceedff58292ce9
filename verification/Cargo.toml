[package]
name = "style_property"
version = "0.1.0"
edition = "2021"
publish = false

[dependencies]
cssparser = "=0.29.6"
smallvec = "=1.16.4"
bevy = { version = "=0.10.1", default-features = false, features = ["bevy_render", "bevy_ui"] }
