[package]
name = "jolt_testing"
version = "0.1.0"
edition = "2021"
publish = false

[dependencies]
ckb-vm = "0.24"
ckb-vm-fuzzing-utils = "*"
ckb-vm-syscall-tracer = "*"
protobuf-ckb-syscalls = "*"
ckb-hash = "*"
ckb-types = "*"
ckb-chain-spec = "*"
ckb-script = "*"
ckb-mock-tx-types = "*"
ckb-jsonrpc-types = "*"
serde = { version = "1", features = ["derive"] }
serde_json = "1"
bincode = "1"
clap = { version = "4", features = ["derive"] }
derive_more = { version = "*", features = ["display", "from"] }
reqwest = { version = "*", default-features = false, features = ["blocking", "json", "rustls-tls"] }
tracing = "*"
tracing-subscriber = "*"
