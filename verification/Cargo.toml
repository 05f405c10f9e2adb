[package]
name = "postgres_db_error"
version = "0.1.0"
edition = "2021"
publish = false

[dependencies]
diesel = "*"
serde_json = "*"
tari_crypto = "*"
tari_utilities = "*"
