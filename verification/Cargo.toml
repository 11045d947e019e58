[package]
name = "karon"
version = "0.1.0"
edition = "2021"
publish = false

[dependencies]
uuid = { version = "=1.29.0", features = ["serde"] }
chrono = "=0.4.45"
actix-web = { version = "=4.18.1", default-features = false, features = ["macros", "cookies"] }
actix-session = { version = "=0.10.1", features = ["cookie-session"] }
actix-web-httpauth = "=0.8.3"
actix-ws = "=0.3.1"
askama = "=0.16.1"
async-broadcast = "=0.7.2"
async-channel = "=2.5.0"
bitflags = "=2.13.2"
either = "=1.19.0"
jsonwebtoken = "=9.3.1"
openidconnect = "=4.1.0"
reqwest = { version = "=0.12.28", default-features = false, features = ["json", "rustls-tls"] }
serde = { version = "=1.0.229", features = ["derive"] }
serde_json = "=1.0.154"
sqlx = { version = "=0.8.6", default-features = false, features = ["postgres", "runtime-tokio", "uuid", "chrono"] }
thiserror = "=2.0.21"
tokio = { version = "=1.54.1", features = ["full"] }
tokio-stream = "=0.1.19"
tracing-actix-web = "=0.7.25"
tracing-log = "=0.2.0"
tracing-subscriber = "=0.3.23"
