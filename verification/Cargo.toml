[package]
name = "lotide"
version = "0.1.0"
edition = "2021"
publish = false

[dependencies]
activitystreams = "=0.6.2"
bcrypt = "=0.8.2"
bytes = "=0.5.6"
chrono = "=0.4.45"
deadpool-postgres = "=0.5.6"
fluent = "=0.12.0"
fluent-langneg = "=0.13.1"
futures = "=0.3.34"
headers = "=0.3.9"
hyper = "=0.13.10"
hyper-tls = "=0.4.3"
lazy_static = "=1.5.1"
openssl = "=0.10.81"
percent-encoding = "=2.3.2"
postgres-types = "=0.1.3"
pulldown-cmark = { version = "=0.7.2", default-features = false }
serde = "=1.0.229"
serde_derive = "=1.0.229"
serde_json = "=1.0.154"
serde_urlencoded = "=0.6.1"
tokio = { version = "=0.2.25", features = ["macros", "sync", "rt-threaded", "blocking"] }
tokio-postgres = { version = "=0.5.5", features = ["with-chrono-0_4", "with-uuid-0_8", "with-serde_json-1"] }
trout = "=0.2.0"
unic-char-range = "=0.9.0"
unic-langid = { version = "=0.9.6", features = ["macros"] }
url = "=2.5.8"
uuid = { version = "=0.8.2", features = ["v4"] }
