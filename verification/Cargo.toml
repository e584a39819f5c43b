[package]
name = "mud_comms"
version = "0.1.0"
edition = "2021"
publish = false

[dependencies]
crossbeam-channel = "=0.5.17"
libc = "=0.2.190"
dns-lookup = "=4.0.2"
log = "=0.4.34"
fern = { version = "=0.7.1", features = ["colored"] }
chrono = "=0.4.45"
tokio = { version = "=1.53.2", features = ["rt", "rt-multi-thread", "net", "time"] }
hyper = { version = "=0.14.32", features = ["server", "http1", "tcp"] }
slack-morphism = "=0.41.0"
slack-morphism-hyper = "=0.41.0"
slack-morphism-models = "=0.41.0"
