[package]
name = "mail_autodiscover"
version = "0.1.0"
edition = "2021"
publish = false

[dependencies]
chrono = "=0.4.45"
phf = { version = "=0.11.3", features = ["macros"] }
rocket = { version = "=0.5.2", features = ["json"] }
rocket_dyn_templates = { version = "=0.2.0", features = ["tera"] }
serde = { version = "=1.0.229", features = ["derive"] }
serde-xml-rs = "=0.6.0"
dotenv = "=0.15.0"
tera = "=1.20.1"

[dev-dependencies]
phf_generator = "=0.11.3"
