[package]
name = "bbox_server"
version = "0.1.0"
edition = "2021"
publish = false

[dependencies]
actix-web = { version = "4", default-features = false }
async-trait = "0.1"
dyn-clone = "1"
figment = { version = "0.10", features = ["env", "toml"] }
geozero = { version = "0.11", default-features = false }
log = "0.4"
martin-mbtiles = { version = "0.6", default-features = false }
num_cpus = "1"
once_cell = "1"
reqwest = { version = "0.11", default-features = false }
rust-embed = "6.8"
serde = { version = "1", features = ["derive"] }
sqlx = { version = "0.7", default-features = false, features = ["postgres", "runtime-tokio"] }
thiserror = "1"
tile-grid = "0.5"
tilejson = "0.3"
utoipa = "3"
