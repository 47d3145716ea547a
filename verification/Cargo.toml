[package]
name = "auth0_rbac"
version = "0.1.0"
edition = "2021"
publish = false

[dependencies]
actix-web = { version = "=4.18.1", default-features = false, features = ["macros"] }
actix-web-httpauth = "=0.8.3"
awc = { version = "=3.11.0", default-features = false, features = ["rustls-0_21"] }
dotenvy = "=0.15.7"
env_logger = "=0.10.2"
envy = "=0.4.2"
jsonwebtoken = "=9.3.1"
log = "=0.4.34"
serde = { version = "=1.0.229", features = ["derive"] }
serde_json = { version = "=1.0.154", features = ["raw_value"] }
url-builder = "=0.1.1"
utoipa = { version = "=4.2.3", features = ["actix_extras"] }
utoipa-rapidoc = { version = "=1.0.0", features = ["actix-web"] }
utoipa-redoc = { version = "=1.0.0", features = ["actix-web"] }
utoipa-swagger-ui = { version = "=4.0.0", features = ["actix-web"] }

[dev-dependencies]
num-bigint = "=0.4.8"
ring = "=0.17.14"
