[package]
name = "uniswapx_indexer"
version = "0.1.0"
edition = "2021"
publish = false

[dependencies]
erc20 = "*"
stapifaction = "*"
alloy = "*"
alloy-primitives = "*"
anyhow = "*"
clap = { version = "*", features = ["derive", "env"] }
dotenv = "*"
futures = "*"
num-traits = "*"
serde = { version = "*", features = ["derive"] }
tokio = { version = "*", features = ["macros", "rt-multi-thread", "signal", "sync"] }
tokio-util = "*"
tracing = "*"
tracing-subscriber = { version = "*", features = ["env-filter"] }
