[package]
name = "hypermedia_systems_rust"
version = "0.1.0"
edition = "2021"
publish = false

[dependencies]
axum = "0.7"
axum-extra = { version = "0.9", features = ["typed-routing", "typed-header", "form", "query"] }
axum-flash = "0.8"
deadpool-diesel = { version = "0.6", features = ["postgres"] }
diesel = { version = "2", features = ["postgres"] }
diesel-derive-newtype = "2"
dotenvy = "0.15"
maud = { version = "0.26", features = ["axum"] }
serde = { version = "1", features = ["derive"] }
thiserror = "1"
tokio = { version = "1", features = ["full"] }
tower-http = { version = "0.5", features = ["fs"] }
tower-livereload = "0.9"
