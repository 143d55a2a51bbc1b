[package]
name = "aleo-prover"
version = "0.2.0"
edition = "2021"

[dependencies]
ansi_term = "0.12"
anyhow = "1"
clap = { version = "4", features = ["derive"] }
dotenvy = "0.15"
futures-util = { version = "0.3", features = ["sink"] }
hex = "=0.4.3"
json-rpc-types = "1"
num_cpus = "1"
rand = "0.8"
rayon = "1"
snarkvm = { version = "=0.12.4", default-features = false, features = ["anyhow", "circuit", "colored", "console", "ledger", "parameters", "rand", "serde_json", "synthesizer", "utilities"] }
snarkvm-algorithms = "=0.12.4"
tokio = { version = "1", features = ["full"] }
tokio-stream = "0.1"
tokio-util = { version = "0.7", features = ["codec"] }
tracing = "0.1"
tracing-subscriber = "0.3"
