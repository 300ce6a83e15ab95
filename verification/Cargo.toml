[package]
name = "ldap_proxy"
version = "0.1.0"
edition = "2021"
publish = false

[dependencies]
concread = "=0.5.10"
hashbrown = "*"
ldap3_proto = { version = "=0.8.1", features = ["serde"] }
openssl = "*"
redis = { version = "=1.7.1", features = ["tokio-comp", "connection-manager"] }
serde = { version = "*", features = ["derive"] }
serde_json = "*"
serde_with = "*"
tokio = { version = "*", features = ["full"] }
tokio-openssl = "*"
tokio-util = { version = "*", features = ["codec"] }
futures-util = "*"
tracing = "*"
url = "*"
toml = "*"
