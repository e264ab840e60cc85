[package]
name = "solo_machine"
version = "0.1.0"
edition = "2021"
publish = false

[dependencies]
hex = "0.4"
rust_decimal = "1"
num-rational = "0.4"
prost = "0.7"
prost-types = "0.7"
serde_json = "1"
primitive-types = "0.10"
env_logger = "0.8"
tiny-bip39 = "0.8"
k256 = "0.7"
tiny-hderive = "0.3"
cosmos-sdk-proto = "0.6"
tokio = { version = "1", features = ["full"] }
tonic = "0.4"
sled = "0.34"
serde_cbor = "0.11"
serde = { version = "1", features = ["derive"] }
structopt = "0.3"
termcolor = "1"
cli-table = "0.4"
anyhow = "1"
dotenv = "0.15"
log = "0.4"
async-trait = "0.1"
libloading = "0.7"
time = "0.2"
tendermint = "0.19"
tendermint-rpc = { version = "0.19", features = ["http-client"] }
tendermint-light-client = "0.19"
