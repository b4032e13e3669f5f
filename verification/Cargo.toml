[package]
name = "charcoal"
version = "0.1.0"
edition = "2021"
publish = false

[dependencies]
hearth-interconnect = "*"
serde_json = "1"
nanoid = "*"
kanal = "*"
prokio = "*"
tokio = { version = "1", features = ["sync", "rt", "time", "macros"] }
rdkafka = "*"
kafka = "*"
openssl = "*"
snafu = "*"
log = "0.4"
async-trait = "0.1"
