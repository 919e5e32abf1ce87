[package]
name = "listing_gateway"
version = "0.1.0"
edition = "2021"
publish = false

[dependencies]
actix-web = { version = "=4.18.1", default-features = false }
lemmy_api_common = { version = "=0.19.3", default-features = false }
lemmy_db_schema = { version = "=0.19.3", default-features = false }
lemmy_db_views = { version = "=0.19.3", default-features = false }
lemmy_db_views_actor = { version = "=0.19.3", default-features = false }
lemmy_utils = { version = "=0.19.3", default-features = false }
serde_json = "1"
tracing = "=0.1.44"
