[package]
name = "baedeker"
version = "0.1.0"
edition = "2021"
publish = false

[dependencies]
bip39 = { version = "=2.2.2", features = ["rand"] }
clap = { version = "=4.6.7", features = ["derive"] }
hex = "=0.4.3"
jrsonnet-cli = { version = "=0.5.0-pre95", features = ["exp-preserve-order"] }
jrsonnet-evaluator = { version = "=0.5.0-pre95", features = ["exp-preserve-order"] }
jrsonnet-gcmodule = "=0.3.10"
jrsonnet-interner = "=0.5.0-pre95"
jrsonnet-macros = "=0.5.0-pre95"
jrsonnet-parser = "=0.5.0-pre95"
jrsonnet-stdlib = { version = "=0.5.0-pre95", features = ["exp-preserve-order"] }
jrsonnet-types = "=0.5.0-pre95"
libp2p = { version = "=0.56.0", features = ["ed25519"] }
pathdiff = "=0.2.3"
serde_json = "=1.0.154"
tempfile = "=3.27.0"
thiserror = "=1.0.69"
tokio = { version = "=1.54.1", features = ["rt-multi-thread", "macros"] }
tracing = "=0.1.44"
tracing-subscriber = { version = "=0.3.23", features = ["env-filter"] }
