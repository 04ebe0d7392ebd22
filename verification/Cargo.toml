[package]
name = "workshop_invites"
version = "0.1.0"
edition = "2021"
publish = false

[dependencies]
chrono = "0.4"
comrak = { version = "*", default-features = false }
diesel = { version = "2", features = ["postgres", "chrono"] }
failure = "0.1"
rocket = "0.5"
rocket_dyn_templates = { version = "0.2", features = ["handlebars"] }
serde = { version = "1", features = ["derive"] }
serde_json = "1"
