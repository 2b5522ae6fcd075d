[package]
name = "token_ledger"
version = "0.1.0"
edition = "2021"
publish = false

[dependencies]
anyhow = "=1.0.104"
cid = "=0.11.3"
fvm_ipld_blockstore = "=0.3.2"
fvm_ipld_encoding = "=0.5.4"
fvm_ipld_hamt = "=0.10.6"
fvm_sdk = "=4.8.4"
fvm_shared = "=4.8.4"
ipld-core = "=0.4.3"
multihash-codetable = { version = "=0.2.2", features = ["blake2b"] }
serde_ipld_dagcbor = "=0.6.4"
